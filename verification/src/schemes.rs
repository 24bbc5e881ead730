//! The dispatcher: from a scheme tag to the provider that serves an owner.

use crate::crypto::{is_supported, same_text, scheme_named, scheme_of, Scheme};
use crate::error::WalletError;
use crate::providers::{
    is_generated, is_signature_text, public_key_of, sign_failure, stored_keypair, CryptoProvider,
    Ed25519, Sr25519,
};
use crate::users::{User, UserView, UsersData};
use vstd::prelude::*;
use vstd::utf8::encode_utf8;

verus! {

/// A provider of one of the supported schemes. The set is closed: a tag
/// resolves to one of these variants or to nothing.
#[derive(Debug, PartialEq, Eq)]
pub enum Schemes {
    Ed25519obj(Ed25519),
    Sr25519obj(Sr25519),
}

/// Why a request to sign `message` for `owner` under `scheme` is turned
/// down, if it is: there is no record, the record was made under another
/// scheme, or the scheme cannot sign with what is stored.
pub open spec fn route_failure(
    users: Map<Seq<char>, UserView>,
    owner: Seq<char>,
    scheme: Scheme,
    message: Seq<u8>,
) -> Option<WalletError> {
    if !users.contains_key(owner) {
        Some(WalletError::NotFound)
    } else if users[owner].sig_scheme != scheme.tag() {
        Some(WalletError::SchemeMismatch)
    } else {
        sign_failure(users, owner, scheme, message)
    }
}

impl Schemes {
    /// The scheme of the provider.
    pub open spec fn scheme(&self) -> Scheme {
        match self {
            Schemes::Ed25519obj(_) => Scheme::Ed25519,
            Schemes::Sr25519obj(_) => Scheme::Sr25519,
        }
    }

    /// The owner that the provider is bound to.
    pub open spec fn owner(&self) -> Seq<char> {
        match self {
            Schemes::Ed25519obj(provider) => provider.username@,
            Schemes::Sr25519obj(provider) => provider.username@,
        }
    }

    /// The provider of the scheme that `scheme_name` names, bound to
    /// `username_`. Any other tag is answered with `UnknownScheme`; there is
    /// no default.
    pub fn create_entity(scheme_name: &str, username_: String) -> (entity: Result<
        Schemes,
        WalletError,
    >)
        ensures
            match entity {
                Ok(provider) => scheme_of(scheme_name@) == Some(provider.scheme())
                    && provider.scheme().tag() == scheme_name@ && provider.owner() == username_@,
                Err(e) => e == WalletError::UnknownScheme && scheme_of(scheme_name@) is None
                    && !is_supported(scheme_name@),
            },
    {
        match scheme_named(scheme_name) {
            Ok(Scheme::Ed25519) => Ok(Schemes::Ed25519obj(Ed25519 { username: username_ })),
            Ok(Scheme::Sr25519) => Ok(Schemes::Sr25519obj(Sr25519 { username: username_ })),
            Err(e) => Err(e),
        }
    }

    /// Makes the owner's keypair under the provider's scheme.
    pub fn generate(&self, users: &mut UsersData) -> (made: Result<String, WalletError>)
        ensures
            made is Ok <==> !old(users)@.contains_key(self.owner()),
            match made {
                Ok(pubkey) => is_generated(
                    old(users)@,
                    self.owner(),
                    self.scheme(),
                    final(users)@,
                    pubkey@,
                ),
                Err(e) => e == WalletError::AlreadyExists && final(users)@ == old(users)@,
            },
    {
        match self {
            Schemes::Ed25519obj(f) => f.clone().generate_keypairs(users),
            Schemes::Sr25519obj(s) => s.clone().generate_keypairs(users),
        }
    }

    /// The owner's public key.
    pub fn get_public(&self, users: &UsersData) -> (found: Result<String, WalletError>)
        ensures
            match found {
                Ok(pubkey) => public_key_of(users@, self.owner()) == Ok::<Seq<char>, WalletError>(
                    pubkey@,
                ),
                Err(e) => public_key_of(users@, self.owner()) == Err::<Seq<char>, WalletError>(e),
            },
    {
        match self {
            Schemes::Ed25519obj(f) => f.clone().get_public(users),
            Schemes::Sr25519obj(s) => s.clone().get_public(users),
        }
    }

    /// Signs `tx` for the owner under the provider's scheme.
    ///
    /// The owner's record names the scheme its keypair was made under. Where
    /// that is not the provider's scheme the request is turned down with
    /// `SchemeMismatch` and nothing is signed.
    pub fn sign(&self, users: &UsersData, tx: String) -> (signed: Result<String, WalletError>)
        ensures
            match signed {
                Ok(text) => route_failure(users@, self.owner(), self.scheme(), encode_utf8(tx@))
                    is None && is_signature_text(
                    self.scheme(),
                    stored_keypair(users@, self.owner())->Ok_0,
                    encode_utf8(tx@),
                    text@,
                ),
                Err(e) => route_failure(users@, self.owner(), self.scheme(), encode_utf8(tx@))
                    == Some(e),
            },
    {
        let (scheme, username) = match self {
            Schemes::Ed25519obj(f) => (Scheme::Ed25519, &f.username),
            Schemes::Sr25519obj(s) => (Scheme::Sr25519, &s.username),
        };
        let user = match User::find(users, username) {
            Ok(user) => user,
            Err(e) => { return Err(e); },
        };
        let tag = scheme.name();
        if !same_text(user.sig_scheme.as_str(), tag.as_str()) {
            return Err(WalletError::SchemeMismatch);
        }
        match self {
            Schemes::Ed25519obj(f) => f.clone().sign_transaction(users, tx),
            Schemes::Sr25519obj(s) => s.clone().sign_transaction(users, tx),
        }
    }
}

} // verus!
