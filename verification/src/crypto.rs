//! The two signature schemes on plain bytes: key generation and signing.
//!
//! A keypair travels as the bytes its scheme writes for it: the secret part
//! first, the 32 bytes of the public key last.

use crate::error::WalletError;
use crate::hexcode::{hex_encode, hex_encoding};
use vstd::prelude::*;
use vstd::slice::{slice_subrange, slice_to_vec};
use vstd::string::StringSliceAdditionalSpecFns;

verus! {

/// A supported signature scheme.
#[derive(Clone, Copy, Debug, PartialEq, Eq, Structural)]
pub enum Scheme {
    /// EdDSA over the Edwards form of Curve25519.
    Ed25519,
    /// Schnorr signatures over the Ristretto group of Curve25519.
    Sr25519,
}

/// Length of a public key, the same under both schemes.
pub const PUBLIC_KEY_LENGTH: usize = 32;

/// Length of a signature, the same under both schemes.
pub const SIGNATURE_LENGTH: usize = 64;

impl Scheme {
    /// The tag under which the scheme is chosen and recorded.
    pub open spec fn tag(self) -> Seq<char> {
        match self {
            Scheme::Ed25519 => "Ed25519"@,
            Scheme::Sr25519 => "Sr25519"@,
        }
    }

    /// Length of a keypair in bytes.
    pub open spec fn keypair_length(self) -> nat {
        match self {
            Scheme::Ed25519 => 64,
            Scheme::Sr25519 => 96,
        }
    }

    /// The scheme's tag as text.
    pub fn name(&self) -> (text: String)
        ensures
            text@ == self.tag(),
    {
        match self {
            Scheme::Ed25519 => String::from_str("Ed25519"),
            Scheme::Sr25519 => String::from_str("Sr25519"),
        }
    }
}

/// Whether a tag names one of the supported schemes.
pub open spec fn is_supported(tag: Seq<char>) -> bool {
    tag == Scheme::Ed25519.tag() || tag == Scheme::Sr25519.tag()
}

/// The scheme that a tag names, if it names one.
pub open spec fn scheme_of(tag: Seq<char>) -> Option<Scheme> {
    if tag == Scheme::Ed25519.tag() {
        Some(Scheme::Ed25519)
    } else if tag == Scheme::Sr25519.tag() {
        Some(Scheme::Sr25519)
    } else {
        None
    }
}

/// Whether two texts are the same.
pub fn same_text(a: &str, b: &str) -> (same: bool)
    ensures
        same == (a@ == b@),
{
    a.to_owned() == b.to_owned()
}

/// The scheme that a tag names; `UnknownScheme` for any other text.
pub fn scheme_named(tag: &str) -> (found: Result<Scheme, WalletError>)
    ensures
        match found {
            Ok(scheme) => scheme_of(tag@) == Some(scheme) && scheme.tag() == tag@,
            Err(e) => e == WalletError::UnknownScheme && scheme_of(tag@) is None && !is_supported(
                tag@,
            ),
        },
{
    if same_text(tag, "Ed25519") {
        Ok(Scheme::Ed25519)
    } else if same_text(tag, "Sr25519") {
        Ok(Scheme::Sr25519)
    } else {
        Err(WalletError::UnknownScheme)
    }
}

/// The two tags differ, so a tag names at most one scheme.
pub proof fn lemma_tags_differ()
    ensures
        Scheme::Ed25519.tag() != Scheme::Sr25519.tag(),
        forall|a: Scheme, b: Scheme| a.tag() == b.tag() ==> a == b,
{
    reveal_strlit("Ed25519");
    reveal_strlit("Sr25519");
    assert("Ed25519"@[0] == 'E');
    assert("Sr25519"@[0] == 'S');
}

/// Whether `ed25519_dalek::Keypair::from_bytes` takes these bytes for a keypair.
pub uninterp spec fn ed25519_accepts(keypair: Seq<u8>) -> bool;

/// The signature that an Ed25519 keypair, given by its bytes, puts on a message.
pub uninterp spec fn ed25519_signature(keypair: Seq<u8>, message: Seq<u8>) -> Seq<u8>;

/// Whether `schnorrkel::Keypair::from_bytes` takes these bytes for a keypair.
pub uninterp spec fn sr25519_accepts(keypair: Seq<u8>) -> bool;

/// The signature that an Sr25519 keypair, given by its bytes, puts on a
/// message under a context label when the random source hands it `nonce`.
pub uninterp spec fn sr25519_signature(
    keypair: Seq<u8>,
    context: Seq<u8>,
    message: Seq<u8>,
    nonce: Seq<u8>,
) -> Seq<u8>;

/// The longest text, in bytes, that Sr25519 signs: its transcript writes the
/// length of a text into four bytes.
pub const SR25519_MESSAGE_LIMIT: usize = 0xffff_ffff;

/// Whether a message is too long for the scheme to sign.
pub open spec fn too_long(scheme: Scheme, message: Seq<u8>) -> bool {
    scheme == Scheme::Sr25519 && message.len() > SR25519_MESSAGE_LIMIT
}

/// Whether `keypair` is a keypair of `scheme`: it has the scheme's length,
/// and the scheme takes it.
pub open spec fn is_keypair(scheme: Scheme, keypair: Seq<u8>) -> bool {
    keypair.len() == scheme.keypair_length() && accepts(scheme, keypair)
}

/// Whether the scheme takes these bytes for a keypair.
pub open spec fn accepts(scheme: Scheme, keypair: Seq<u8>) -> bool {
    match scheme {
        Scheme::Ed25519 => ed25519_accepts(keypair),
        Scheme::Sr25519 => sr25519_accepts(keypair),
    }
}

/// The public key inside a keypair: its last 32 bytes.
pub open spec fn public_part(keypair: Seq<u8>) -> Seq<u8> {
    keypair.subrange(keypair.len() - PUBLIC_KEY_LENGTH as int, keypair.len() as int)
}

/// The label that separates this crate's Sr25519 signatures from those made
/// for other purposes with the same key: the ASCII text `Signing`.
pub open spec fn signing_context() -> Seq<u8> {
    seq![83u8, 105u8, 103u8, 110u8, 105u8, 110u8, 103u8]
}

/// What holds of a signature that `scheme` made with `keypair` on `message`.
///
/// An Ed25519 signature is determined by keypair and message. An Sr25519
/// signature is determined by keypair, the context label of this crate,
/// message and the nonce that the random source gave; which nonce that was
/// is open. The last byte tells the two apart: its high bit is set under
/// Sr25519 and clear under Ed25519.
pub open spec fn is_signature(
    scheme: Scheme,
    keypair: Seq<u8>,
    message: Seq<u8>,
    signature: Seq<u8>,
) -> bool {
    &&& signature.len() == SIGNATURE_LENGTH
    &&& match scheme {
        Scheme::Ed25519 => signature == ed25519_signature(keypair, message) && signature[63] < 32,
        Scheme::Sr25519 => signature[63] >= 128 && exists|nonce: Seq<u8>|
            signature == #[trigger] sr25519_signature(keypair, signing_context(), message, nonce),
    }
}

/// `ed25519_dalek::SignatureError`, the reason `Keypair::from_bytes` gives for
/// a refusal. It is carried through and never looked into.
#[verifier::external_type_specification]
#[verifier::external_body]
pub struct ExEd25519Error(ed25519_dalek::SignatureError);

/// `schnorrkel::SignatureError`, the reason `Keypair::from_bytes` gives for a
/// refusal. It is carried through and never looked into.
#[verifier::external_type_specification]
#[verifier::external_body]
pub struct ExSr25519Error(schnorrkel::SignatureError);

/// `ed25519_dalek::Keypair::generate` on the system's random source, written
/// out by `Keypair::to_bytes`: 64 bytes that `Keypair::from_bytes` takes back.
#[verifier::external_body]
fn ed25519_generate() -> (keypair: Vec<u8>)
    ensures
        keypair@.len() == 64,
        ed25519_accepts(keypair@),
{
    ed25519_dalek::Keypair::generate(&mut rand::rngs::OsRng {}).to_bytes().to_vec()
}

/// `ed25519_dalek::Keypair::from_bytes`, then `Signer::sign` with that
/// keypair. Fails exactly where `from_bytes` refuses the bytes, which it does
/// unless there are 64 of them. The signature has 64 bytes, is the same for
/// the same keypair and message, and its scalar half is reduced, which leaves
/// the top three bits of the last byte clear.
#[verifier::external_body]
fn ed25519_sign(keypair: &[u8], message: &[u8]) -> (signature: Result<
    Vec<u8>,
    ed25519_dalek::SignatureError,
>)
    ensures
        signature is Ok <==> ed25519_accepts(keypair@),
        signature is Ok ==> keypair@.len() == 64,
        signature matches Ok(s) ==> s@ == ed25519_signature(keypair@, message@) && s@.len() == 64
            && s@[63] < 32,
{
    let pair = ed25519_dalek::Keypair::from_bytes(keypair)?;
    Ok(ed25519_dalek::Signer::sign(&pair, message).to_bytes().to_vec())
}

/// `schnorrkel::Keypair::generate_with` on the system's random source, written
/// out by `Keypair::to_bytes`: 96 bytes that `Keypair::from_bytes` takes back.
#[verifier::external_body]
fn sr25519_generate() -> (keypair: Vec<u8>)
    ensures
        keypair@.len() == 96,
        sr25519_accepts(keypair@),
{
    schnorrkel::Keypair::generate_with(rand_core::OsRng).to_bytes().to_vec()
}

/// `schnorrkel::Keypair::from_bytes`, then `Keypair::sign` on the transcript
/// that `signing_context(context).bytes(message)` builds. The transcript
/// refuses, by a panic, a context or a message whose length does not fit in
/// four bytes, so neither may be longer. Fails exactly where `from_bytes`
/// refuses the bytes, which it does unless there are 96 of them. The
/// signature has 64 bytes, and `Signature::to_bytes` sets the high bit of the
/// last one. It is made from keypair, context, message and bytes drawn from
/// the system's random source, so two calls may differ.
#[verifier::external_body]
fn sr25519_sign(keypair: &[u8], context: &[u8], message: &[u8]) -> (signature: Result<
    Vec<u8>,
    schnorrkel::SignatureError,
>)
    requires
        context@.len() <= u32::MAX,
        message@.len() <= u32::MAX,
    ensures
        signature is Ok <==> sr25519_accepts(keypair@),
        signature is Ok ==> keypair@.len() == 96,
        signature matches Ok(s) ==> s@.len() == 64 && s@[63] >= 128,
        signature matches Ok(s) ==> exists|nonce: Seq<u8>|
            s@ == #[trigger] sr25519_signature(keypair@, context@, message@, nonce),
{
    let pair = schnorrkel::Keypair::from_bytes(keypair)?;
    Ok(pair.sign(schnorrkel::signing_context(context).bytes(message)).to_bytes().to_vec())
}

/// A freshly made keypair and the public key inside it.
pub struct KeyMaterial {
    /// The keypair as its scheme writes it.
    pub keypair: Vec<u8>,
    /// The public key.
    pub public: Vec<u8>,
}

/// Makes a keypair under `scheme` from the system's random source.
///
/// Which keypair comes out is open; its form is not.
pub fn gen_key_pair(scheme: Scheme) -> (keys: KeyMaterial)
    ensures
        keys.keypair@.len() == scheme.keypair_length(),
        accepts(scheme, keys.keypair@),
        keys.public@ == public_part(keys.keypair@),
        keys.public@.len() == PUBLIC_KEY_LENGTH,
{
    let keypair = match scheme {
        Scheme::Ed25519 => ed25519_generate(),
        Scheme::Sr25519 => sr25519_generate(),
    };
    let public = public_of(keypair.as_slice());
    KeyMaterial { keypair, public }
}

/// Copies the public key out of a keypair.
fn public_of(keypair: &[u8]) -> (public: Vec<u8>)
    requires
        keypair@.len() >= PUBLIC_KEY_LENGTH,
    ensures
        public@ == public_part(keypair@),
        public@.len() == PUBLIC_KEY_LENGTH,
{
    let n = keypair.len();
    slice_to_vec(slice_subrange(keypair, n - PUBLIC_KEY_LENGTH, n))
}

/// Signs the bytes of `data`, exactly as given, with a keypair of `scheme`.
///
/// Fails with `InvalidInput` where the text is too long for the scheme to
/// sign, and otherwise with `KeyDecodeError` where `keypair` is no keypair of
/// the scheme; it succeeds on every other input.
pub fn sign(scheme: Scheme, keypair: &[u8], data: &str) -> (signature: Result<Vec<u8>, WalletError>)
    ensures
        match signature {
            Ok(s) => !too_long(scheme, data.spec_bytes()) && is_keypair(scheme, keypair@)
                && is_signature(scheme, keypair@, data.spec_bytes(), s@),
            Err(e) => if too_long(scheme, data.spec_bytes()) {
                e == WalletError::InvalidInput
            } else {
                e == WalletError::KeyDecodeError && !is_keypair(scheme, keypair@)
            },
        },
{
    match scheme {
        Scheme::Ed25519 => match ed25519_sign(keypair, data.as_bytes()) {
            Ok(s) => Ok(s),
            Err(_) => Err(WalletError::KeyDecodeError),
        },
        Scheme::Sr25519 => {
            let message = data.as_bytes();
            if message.len() > SR25519_MESSAGE_LIMIT {
                return Err(WalletError::InvalidInput);
            }
            let context: Vec<u8> = vec![83u8, 105u8, 103u8, 110u8, 105u8, 110u8, 103u8];
            assert(context@ =~= signing_context());
            match sr25519_sign(keypair, context.as_slice(), message) {
                Ok(s) => Ok(s),
                Err(_) => Err(WalletError::KeyDecodeError),
            }
        },
    }
}

/// The address shown for a public key: its hexadecimal text, or the request
/// to make a wallet where there is no key yet.
pub fn get_address(public: Option<&[u8]>) -> (text: String)
    ensures
        text@ == match public {
            Some(key) => hex_encoding(key@),
            None => "Please create a wallet first (type /createwallet)"@,
        },
{
    match public {
        Some(key) => hex_encode(key),
        None => String::from_str("Please create a wallet first (type /createwallet)"),
    }
}

} // verus!
