use vstd::prelude::*;

verus! {

/// What can go wrong in the key store, the providers and the dispatcher.
#[derive(Clone, Copy, Debug, PartialEq, Eq, Structural)]
pub enum WalletError {
    /// The owner has no key record.
    NotFound,
    /// The scheme tag names none of the supported schemes.
    UnknownScheme,
    /// The owner's record was made under another scheme than the one asked for.
    SchemeMismatch,
    /// The stored key text is not a key of its scheme.
    KeyDecodeError,
    /// The backing medium failed.
    StorageError,
    /// A reply could not be read as what the conversation asked for, or a
    /// text is too long to be signed.
    InvalidInput,
    /// The owner already has a key record, and none was written.
    AlreadyExists,
}

impl WalletError {
    /// The text shown for the error.
    pub fn message(&self) -> (text: String)
        ensures
            text@ == self.spec_message()@,
    {
        match self {
            WalletError::NotFound => String::from_str("no keypair for this owner"),
            WalletError::UnknownScheme => String::from_str("unknown signature scheme"),
            WalletError::SchemeMismatch => String::from_str("keypair was made under another scheme"),
            WalletError::KeyDecodeError => String::from_str("stored key is malformed"),
            WalletError::StorageError => String::from_str("storage failed"),
            WalletError::InvalidInput => String::from_str("input not understood"),
            WalletError::AlreadyExists => String::from_str("keypair already exists"),
        }
    }

    pub open spec fn spec_message(&self) -> &'static str {
        match self {
            WalletError::NotFound => "no keypair for this owner",
            WalletError::UnknownScheme => "unknown signature scheme",
            WalletError::SchemeMismatch => "keypair was made under another scheme",
            WalletError::KeyDecodeError => "stored key is malformed",
            WalletError::StorageError => "storage failed",
            WalletError::InvalidInput => "input not understood",
            WalletError::AlreadyExists => "keypair already exists",
        }
    }
}

} // verus!
