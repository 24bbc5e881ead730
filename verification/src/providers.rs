//! The signature providers: one per scheme, each bound to an owner.
//!
//! A provider makes the owner's keypair and keeps it in the key store, shows
//! the public key, and signs with the stored keypair. Both providers answer
//! to one contract, stated once on [`CryptoProvider`].

use crate::crypto::{
    gen_key_pair, is_keypair, is_signature, public_part, too_long, Scheme,
};
use crate::crypto::sign as sign_bytes;
use crate::error::WalletError;
use crate::hexcode::{decode_key, hex_decoding, hex_encode, hex_encoding};
use crate::users::{User, UserView, UsersData};
use vstd::prelude::*;
use vstd::slice::{slice_subrange, slice_to_vec};
use vstd::utf8::encode_utf8;

verus! {

/// The record that is written for a keypair of `scheme`.
pub open spec fn new_record(scheme: Scheme, keypair: Seq<u8>) -> UserView {
    UserView {
        sig_scheme: scheme.tag(),
        keypair: hex_encoding(keypair),
        pubkey: hex_encoding(public_part(keypair)),
    }
}

/// What keeping a keypair for `owner` makes of the store, and what it
/// answers: the public key as text where the record was written.
///
/// The first keypair of an owner stays. A second one is refused with
/// `AlreadyExists` and leaves the store as it was, so no public key is ever
/// handed out that the store does not hold.
pub open spec fn kept(
    users: Map<Seq<char>, UserView>,
    owner: Seq<char>,
    scheme: Scheme,
    keypair: Seq<u8>,
) -> (Map<Seq<char>, UserView>, Result<Seq<char>, WalletError>) {
    if users.contains_key(owner) {
        (users, Err(WalletError::AlreadyExists))
    } else if keypair.len() < 32 {
        (users, Err(WalletError::KeyDecodeError))
    } else {
        (users.insert(owner, new_record(scheme, keypair)), Ok(hex_encoding(public_part(keypair))))
    }
}

/// The public key on record for `owner`.
pub open spec fn public_key_of(users: Map<Seq<char>, UserView>, owner: Seq<char>) -> Result<
    Seq<char>,
    WalletError,
> {
    if users.contains_key(owner) {
        Ok(users[owner].pubkey)
    } else {
        Err(WalletError::NotFound)
    }
}

/// The keypair on record for `owner`, read back into bytes.
pub open spec fn stored_keypair(users: Map<Seq<char>, UserView>, owner: Seq<char>) -> Result<
    Seq<u8>,
    WalletError,
> {
    if !users.contains_key(owner) {
        Err(WalletError::NotFound)
    } else {
        match hex_decoding(users[owner].keypair) {
            Some(keypair) => Ok(keypair),
            None => Err(WalletError::KeyDecodeError),
        }
    }
}

/// Why `scheme` cannot sign `message` for `owner`, if it cannot: there is no
/// record, the stored text is no hexadecimal text, the message is too long
/// for the scheme, or what is stored is no keypair of the scheme.
pub open spec fn sign_failure(
    users: Map<Seq<char>, UserView>,
    owner: Seq<char>,
    scheme: Scheme,
    message: Seq<u8>,
) -> Option<WalletError> {
    match stored_keypair(users, owner) {
        Err(e) => Some(e),
        Ok(keypair) => if too_long(scheme, message) {
            Some(WalletError::InvalidInput)
        } else if is_keypair(scheme, keypair) {
            None
        } else {
            Some(WalletError::KeyDecodeError)
        },
    }
}

/// Whether `text` is the hexadecimal form of a signature that `scheme` made
/// with `keypair` on `message`.
pub open spec fn is_signature_text(
    scheme: Scheme,
    keypair: Seq<u8>,
    message: Seq<u8>,
    text: Seq<char>,
) -> bool {
    exists|signature: Seq<u8>| #[trigger]
        is_signature(scheme, keypair, message, signature) && text == hex_encoding(signature)
}

/// Keeps `keypair` as the keypair of `username` under `scheme` and answers
/// with the public key, for any bytes whatever.
pub fn keep_keypair(users: &mut UsersData, username: String, scheme: Scheme, keypair: &[u8]) -> (made:
    Result<String, WalletError>)
    ensures
        final(users)@ == kept(old(users)@, username@, scheme, keypair@).0,
        match made {
            Ok(pubkey) => kept(old(users)@, username@, scheme, keypair@).1 == Ok::<
                Seq<char>,
                WalletError,
            >(pubkey@),
            Err(e) => kept(old(users)@, username@, scheme, keypair@).1 == Err::<
                Seq<char>,
                WalletError,
            >(e),
        },
{
    if keypair.len() < 32 {
        return match User::find(users, &username) {
            Ok(_) => Err(WalletError::AlreadyExists),
            Err(_) => Err(WalletError::KeyDecodeError),
        };
    }
    let n = keypair.len();
    let public = slice_to_vec(slice_subrange(keypair, n - 32, n));
    let record = User {
        sig_scheme: scheme.name(),
        keypair: hex_encode(keypair),
        pubkey: hex_encode(public.as_slice()),
    };
    match User::insert(users, username, record) {
        Ok(user) => Ok(user.pubkey),
        Err(e) => Err(e),
    }
}

/// Makes a keypair under `scheme` and keeps it for `username`.
pub fn generate(scheme: Scheme, username: String, users: &mut UsersData) -> (made: Result<
    String,
    WalletError,
>)
    ensures
        made is Ok <==> !old(users)@.contains_key(username@),
        match made {
            Ok(pubkey) => is_generated(old(users)@, username@, scheme, final(users)@, pubkey@),
            Err(e) => e == WalletError::AlreadyExists && final(users)@ == old(users)@,
        },
{
    match User::find(users, &username) {
        Ok(_) => Err(WalletError::AlreadyExists),
        Err(_) => {
            let keys = gen_key_pair(scheme);
            let made = keep_keypair(users, username, scheme, keys.keypair.as_slice());
            assert(is_generated_with(
                old(users)@,
                username@,
                scheme,
                keys.keypair@,
                users@,
                made->Ok_0@,
            ));
            made
        },
    }
}

/// Whether keeping `keypair`, a well-formed keypair of `scheme`, for `owner`
/// leads from `before` to `after` and answers `pubkey`.
pub open spec fn is_generated_with(
    before: Map<Seq<char>, UserView>,
    owner: Seq<char>,
    scheme: Scheme,
    keypair: Seq<u8>,
    after: Map<Seq<char>, UserView>,
    pubkey: Seq<char>,
) -> bool {
    &&& is_keypair(scheme, keypair)
    &&& kept(before, owner, scheme, keypair) == (after, Ok::<Seq<char>, WalletError>(pubkey))
}

/// Whether some well-formed keypair of `scheme`, kept for `owner`, leads from
/// `before` to `after` and answers `pubkey`. Which keypair it is lies with
/// the random source.
pub open spec fn is_generated(
    before: Map<Seq<char>, UserView>,
    owner: Seq<char>,
    scheme: Scheme,
    after: Map<Seq<char>, UserView>,
    pubkey: Seq<char>,
) -> bool {
    exists|keypair: Seq<u8>| #[trigger]
        is_generated_with(before, owner, scheme, keypair, after, pubkey)
}

/// The public key on record for `username`.
pub fn public_key(users: &UsersData, username: &String) -> (found: Result<String, WalletError>)
    ensures
        match found {
            Ok(pubkey) => public_key_of(users@, username@) == Ok::<Seq<char>, WalletError>(
                pubkey@,
            ),
            Err(e) => public_key_of(users@, username@) == Err::<Seq<char>, WalletError>(e),
        },
{
    match User::find(users, username) {
        Ok(user) => Ok(user.pubkey),
        Err(e) => Err(e),
    }
}

/// Signs the bytes of `data` with the keypair on record for `username`, read
/// as a keypair of `scheme`.
pub fn sign_stored(scheme: Scheme, users: &UsersData, username: &String, data: &str) -> (signed:
    Result<String, WalletError>)
    ensures
        match signed {
            Ok(text) => sign_failure(users@, username@, scheme, encode_utf8(data@)) is None
                && is_signature_text(
                scheme,
                stored_keypair(users@, username@)->Ok_0,
                encode_utf8(data@),
                text@,
            ),
            Err(e) => sign_failure(users@, username@, scheme, encode_utf8(data@)) == Some(e),
        },
{
    let user = match User::find(users, username) {
        Ok(user) => user,
        Err(e) => { return Err(e); },
    };
    let keypair = match decode_key(user.keypair.as_str()) {
        Ok(keypair) => keypair,
        Err(e) => { return Err(e); },
    };
    match sign_bytes(scheme, keypair.as_slice(), data) {
        Ok(signature) => {
            let text = hex_encode(signature.as_slice());
            assert(is_signature(scheme, keypair@, encode_utf8(data@), signature@));
            Ok(text)
        },
        Err(e) => Err(e),
    }
}

/// What a signature provider does for the owner it is bound to.
///
/// The methods take the key store they work on. Every implementation meets
/// the contract written here, so a caller need not know which scheme it has
/// before it.
pub trait CryptoProvider: Sized {
    /// What is signed.
    type Transaction;

    /// How a signature is handed out.
    type Signature;

    /// How a failure is reported.
    type Error;

    /// The scheme that the provider signs under.
    spec fn scheme(&self) -> Scheme;

    /// The owner that the provider is bound to.
    spec fn owner(&self) -> Seq<char>;

    /// The bytes of a transaction that are signed.
    spec fn message(transaction: &Self::Transaction) -> Seq<u8>;

    /// The failure that an error reports.
    spec fn failure(error: &Self::Error) -> WalletError;

    /// Makes a fresh keypair for the owner, keeps it in `users` and answers
    /// with the public key. An owner that has a keypair keeps it:
    /// `AlreadyExists` comes back and nothing is written.
    fn generate_keypairs(self, users: &mut UsersData) -> (made: Result<String, Self::Error>)
        ensures
            made is Ok <==> !old(users)@.contains_key(self.owner()),
            match made {
                Ok(pubkey) => is_generated(
                    old(users)@,
                    self.owner(),
                    self.scheme(),
                    final(users)@,
                    pubkey@,
                ),
                Err(e) => Self::failure(&e) == WalletError::AlreadyExists && final(users)@ == old(users)@,
            },
    ;

    /// The owner's public key; `NotFound` where the owner has no keypair.
    fn get_public(self, users: &UsersData) -> (found: Result<String, Self::Error>)
        ensures
            match found {
                Ok(pubkey) => public_key_of(users@, self.owner()) == Ok::<Seq<char>, WalletError>(
                    pubkey@,
                ),
                Err(e) => public_key_of(users@, self.owner()) == Err::<Seq<char>, WalletError>(
                    Self::failure(&e),
                ),
            },
    ;

    /// Signs the transaction, exactly as given, with the owner's keypair.
    /// Fails with `NotFound` where the owner has no keypair, with
    /// `KeyDecodeError` where what is stored is no keypair of the scheme, and
    /// with `InvalidInput` where the transaction is too long for the scheme.
    fn sign_transaction(self, users: &UsersData, transaction: Self::Transaction) -> (signed: Result<
        String,
        Self::Error,
    >)
        ensures
            match signed {
                Ok(text) => sign_failure(
                    users@,
                    self.owner(),
                    self.scheme(),
                    Self::message(&transaction),
                ) is None && is_signature_text(
                    self.scheme(),
                    stored_keypair(users@, self.owner())->Ok_0,
                    Self::message(&transaction),
                    text@,
                ),
                Err(e) => sign_failure(
                    users@,
                    self.owner(),
                    self.scheme(),
                    Self::message(&transaction),
                ) == Some(Self::failure(&e)),
            },
    ;
}

/// The Ed25519 provider of one owner.
#[derive(Debug, PartialEq, Eq)]
pub struct Ed25519 {
    /// The owner.
    pub username: String,
}

/// The Sr25519 provider of one owner.
#[derive(Debug, PartialEq, Eq)]
pub struct Sr25519 {
    /// The owner.
    pub username: String,
}

impl Clone for Ed25519 {
    fn clone(&self) -> (copy: Self)
        ensures
            copy.username@ == self.username@,
    {
        Ed25519 { username: self.username.clone() }
    }
}

impl Clone for Sr25519 {
    fn clone(&self) -> (copy: Self)
        ensures
            copy.username@ == self.username@,
    {
        Sr25519 { username: self.username.clone() }
    }
}

impl CryptoProvider for Ed25519 {
    type Transaction = String;

    type Signature = String;

    type Error = WalletError;

    open spec fn scheme(&self) -> Scheme {
        Scheme::Ed25519
    }

    open spec fn owner(&self) -> Seq<char> {
        self.username@
    }

    open spec fn message(transaction: &String) -> Seq<u8> {
        encode_utf8(transaction@)
    }

    open spec fn failure(error: &WalletError) -> WalletError {
        *error
    }

    fn generate_keypairs(self, users: &mut UsersData) -> (made: Result<String, WalletError>) {
        generate(Scheme::Ed25519, self.username, users)
    }

    fn get_public(self, users: &UsersData) -> (found: Result<String, WalletError>) {
        public_key(users, &self.username)
    }

    fn sign_transaction(self, users: &UsersData, transaction: String) -> (signed: Result<
        String,
        WalletError,
    >) {
        sign_stored(Scheme::Ed25519, users, &self.username, transaction.as_str())
    }
}

impl CryptoProvider for Sr25519 {
    type Transaction = String;

    type Signature = String;

    type Error = WalletError;

    open spec fn scheme(&self) -> Scheme {
        Scheme::Sr25519
    }

    open spec fn owner(&self) -> Seq<char> {
        self.username@
    }

    open spec fn message(transaction: &String) -> Seq<u8> {
        encode_utf8(transaction@)
    }

    open spec fn failure(error: &WalletError) -> WalletError {
        *error
    }

    fn generate_keypairs(self, users: &mut UsersData) -> (made: Result<String, WalletError>) {
        generate(Scheme::Sr25519, self.username, users)
    }

    fn get_public(self, users: &UsersData) -> (found: Result<String, WalletError>) {
        public_key(users, &self.username)
    }

    fn sign_transaction(self, users: &UsersData, transaction: String) -> (signed: Result<
        String,
        WalletError,
    >) {
        sign_stored(Scheme::Sr25519, users, &self.username, transaction.as_str())
    }
}

} // verus!
