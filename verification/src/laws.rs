//! What holds of the key lifecycle, whatever the owner, the scheme and the
//! keypair that the random source gave.

use crate::crypto::{is_keypair, is_signature, public_part, too_long, Scheme};
use crate::error::WalletError;
use crate::hexcode::{hex_encoding, lemma_hex_encoding_injective, lemma_hex_round_trip};
use crate::providers::{
    is_generated, is_generated_with, is_signature_text, kept, new_record, public_key_of,
    sign_failure, stored_keypair,
};
use crate::dialogue::{
    amount_in, is_signing, is_step, sign_route, signed_bytes, signing_failure, EventView, MidFlow,
    ReplyView, StateView,
};
use crate::schemes::route_failure;
use crate::transaction::{amount_of, is_digit, unsigned_part};
use crate::users::UserView;
use vstd::prelude::*;

verus! {

/// The public key that generation answers with is the one that the store
/// shows for the owner right afterwards.
pub proof fn lemma_generated_key_is_shown(
    before: Map<Seq<char>, UserView>,
    owner: Seq<char>,
    scheme: Scheme,
    after: Map<Seq<char>, UserView>,
    pubkey: Seq<char>,
)
    requires
        is_generated(before, owner, scheme, after, pubkey),
    ensures
        public_key_of(after, owner) == Ok::<Seq<char>, WalletError>(pubkey),
{
    let keypair = choose|keypair: Seq<u8>| #[trigger]
        is_generated_with(before, owner, scheme, keypair, after, pubkey);
    assert(after == before.insert(owner, new_record(scheme, keypair)));
}

/// For an owner without a record, showing the public key and signing both
/// fail with `NotFound`, under either scheme and through the dispatcher too.
pub proof fn lemma_no_record_is_not_found(
    users: Map<Seq<char>, UserView>,
    owner: Seq<char>,
    scheme: Scheme,
    message: Seq<u8>,
)
    requires
        !users.contains_key(owner),
    ensures
        public_key_of(users, owner) == Err::<Seq<char>, WalletError>(WalletError::NotFound),
        sign_failure(users, owner, scheme, message) == Some(WalletError::NotFound),
        route_failure(users, owner, scheme, message) == Some(WalletError::NotFound),
{
}

/// Right after generation every message that is not too long for the scheme
/// can be signed with the owner's keypair: the store holds the keypair that
/// was made, under the tag of its scheme, and it is a keypair of the scheme.
/// The public key that was handed out is the one inside it.
pub proof fn lemma_generated_key_signs(
    before: Map<Seq<char>, UserView>,
    owner: Seq<char>,
    scheme: Scheme,
    after: Map<Seq<char>, UserView>,
    pubkey: Seq<char>,
    message: Seq<u8>,
)
    requires
        is_generated(before, owner, scheme, after, pubkey),
        !too_long(scheme, message),
    ensures
        sign_failure(after, owner, scheme, message) is None,
        route_failure(after, owner, scheme, message) is None,
        stored_keypair(after, owner) is Ok,
        is_keypair(scheme, stored_keypair(after, owner)->Ok_0),
        pubkey == hex_encoding(public_part(stored_keypair(after, owner)->Ok_0)),
{
    let keypair = choose|keypair: Seq<u8>| #[trigger]
        is_generated_with(before, owner, scheme, keypair, after, pubkey);
    assert(after == before.insert(owner, new_record(scheme, keypair)));
    lemma_hex_round_trip(keypair);
    assert(stored_keypair(after, owner) == Ok::<Seq<u8>, WalletError>(keypair));
}

/// Generating again for an owner that has a keypair is refused with
/// `AlreadyExists`, whatever the scheme and the keypair of the second
/// attempt, and leaves the store as the first attempt left it.
pub proof fn lemma_first_keypair_stays(
    users: Map<Seq<char>, UserView>,
    owner: Seq<char>,
    scheme: Scheme,
    keypair: Seq<u8>,
    next_scheme: Scheme,
    next_keypair: Seq<u8>,
)
    requires
        kept(users, owner, scheme, keypair).1 is Ok,
    ensures
        kept(kept(users, owner, scheme, keypair).0, owner, next_scheme, next_keypair) == (
            kept(users, owner, scheme, keypair).0,
            Err::<Seq<char>, WalletError>(WalletError::AlreadyExists),
        ),
{
}

/// Keeping a keypair for one owner touches no other owner's record.
pub proof fn lemma_keeping_is_per_owner(
    users: Map<Seq<char>, UserView>,
    owner: Seq<char>,
    scheme: Scheme,
    keypair: Seq<u8>,
    other: Seq<char>,
)
    requires
        other != owner,
    ensures
        kept(users, owner, scheme, keypair).0.contains_key(other) == users.contains_key(other),
        users.contains_key(other) ==> kept(users, owner, scheme, keypair).0[other] == users[other],
{
}

/// The schemes keep their signatures apart: no signature made under Ed25519
/// is one made under Sr25519, whatever the keypairs and the messages, and
/// their texts differ as well.
pub proof fn lemma_schemes_sign_apart(
    ed_keypair: Seq<u8>,
    ed_message: Seq<u8>,
    ed_signature: Seq<u8>,
    sr_keypair: Seq<u8>,
    sr_message: Seq<u8>,
    sr_signature: Seq<u8>,
)
    requires
        is_signature(Scheme::Ed25519, ed_keypair, ed_message, ed_signature),
        is_signature(Scheme::Sr25519, sr_keypair, sr_message, sr_signature),
    ensures
        ed_signature != sr_signature,
        hex_encoding(ed_signature) != hex_encoding(sr_signature),
{
    assert(ed_signature[63] != sr_signature[63]);
    if hex_encoding(ed_signature) == hex_encoding(sr_signature) {
        lemma_hex_encoding_injective(ed_signature, sr_signature);
    }
}

/// A signature text made under one scheme is never one made under the other.
pub proof fn lemma_signature_texts_apart(
    ed_keypair: Seq<u8>,
    ed_message: Seq<u8>,
    sr_keypair: Seq<u8>,
    sr_message: Seq<u8>,
    text: Seq<char>,
)
    requires
        is_signature_text(Scheme::Ed25519, ed_keypair, ed_message, text),
    ensures
        !is_signature_text(Scheme::Sr25519, sr_keypair, sr_message, text),
{
    if is_signature_text(Scheme::Sr25519, sr_keypair, sr_message, text) {
        let ed = choose|s: Seq<u8>| #[trigger]
            is_signature(Scheme::Ed25519, ed_keypair, ed_message, s) && text == hex_encoding(s);
        let sr = choose|s: Seq<u8>| #[trigger]
            is_signature(Scheme::Sr25519, sr_keypair, sr_message, s) && text == hex_encoding(s);
        lemma_schemes_sign_apart(ed_keypair, ed_message, ed, sr_keypair, sr_message, sr);
    }
}

/// Under Ed25519 the same keypair and message always give the same
/// signature text.
pub proof fn lemma_ed25519_is_deterministic(
    keypair: Seq<u8>,
    message: Seq<u8>,
    one: Seq<char>,
    two: Seq<char>,
)
    requires
        is_signature_text(Scheme::Ed25519, keypair, message, one),
        is_signature_text(Scheme::Ed25519, keypair, message, two),
    ensures
        one == two,
{
}

/// A reply that is no amount leaves the amount awaited for the same
/// recipient and is answered with the request for a number, whatever the
/// store holds.
pub proof fn lemma_no_amount_keeps_waiting(
    users: Map<Seq<char>, UserView>,
    owner: Seq<char>,
    reply: Option<Seq<char>>,
    to: Seq<char>,
    next: StateView,
    outcome: Result<ReplyView, WalletError>,
)
    requires
        amount_in(reply) is None,
        is_signing(users, owner, reply, to, next, outcome),
    ensures
        next == (StateView::ReceiveAmount { to }),
        outcome == Ok::<ReplyView, WalletError>(ReplyView::SendNumber),
{
}

/// A reply that begins with a character that is neither a digit nor `+` is
/// no amount; so no negative number is one.
pub proof fn lemma_no_amount_without_leading_digit(text: Seq<char>)
    requires
        text.len() > 0,
        !is_digit(text[0]),
        text[0] != '+',
    ensures
        amount_of(text) is None,
{
    assert(unsigned_part(text) == text);
    assert(!is_digit(unsigned_part(text)[0]));
}

/// A signed transfer goes out only in answer to a text that is an amount,
/// met while the amount is awaited. It names the owner as sender, the
/// recipient that was awaited there and that amount, its signature is one
/// that the scheme of the owner's record made with the stored keypair on the
/// text of exactly these three, and the conversation stands at the start
/// afterwards.
pub proof fn lemma_signed_transfer_ends_the_conversation(
    policy: MidFlow,
    state: StateView,
    users: Map<Seq<char>, UserView>,
    owner: Seq<char>,
    event: EventView,
    next: StateView,
    outcome: Result<ReplyView, WalletError>,
)
    requires
        is_step(policy, state, users, owner, event, next, outcome),
        outcome is Ok,
        outcome->Ok_0 is Signed,
    ensures
        next == StateView::Start,
        state is ReceiveAmount,
        event is Text,
        outcome->Ok_0->Signed_to == state->to,
        outcome->Ok_0->Signed_from == owner,
        amount_of(event->Text_0) == Some(outcome->Ok_0->Signed_amount),
        signing_failure(
            users,
            owner,
            signed_bytes(owner, state->to, outcome->Ok_0->Signed_amount),
        ) is None,
        is_signature_text(
            sign_route(users, owner)->Ok_0,
            stored_keypair(users, owner)->Ok_0,
            signed_bytes(owner, state->to, outcome->Ok_0->Signed_amount),
            outcome->Ok_0->Signed_sign,
        ),
{
}

/// A failure comes only from signing, while the amount is awaited, and
/// leaves the conversation where it was.
pub proof fn lemma_failure_keeps_the_state(
    policy: MidFlow,
    state: StateView,
    users: Map<Seq<char>, UserView>,
    owner: Seq<char>,
    event: EventView,
    next: StateView,
    outcome: Result<ReplyView, WalletError>,
)
    requires
        is_step(policy, state, users, owner, event, next, outcome),
        outcome is Err,
    ensures
        next == state,
        state is ReceiveAmount,
        event is Text,
        amount_of(event->Text_0) is Some,
        signing_failure(
            users,
            owner,
            signed_bytes(owner, state->to, amount_of(event->Text_0)->0),
        ) == Some(outcome->Err_0),
{
}

} // verus!
