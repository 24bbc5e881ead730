//! Key custody and transaction signing for a chat wallet.
//!
//! The crate keeps one key record per owner, creates and uses keys under two
//! signature schemes, and sequences the short conversation that collects a
//! recipient and an amount before a transfer is signed.

pub mod crypto;
pub mod dialogue;
pub mod dialogues;
pub mod error;
pub mod hexcode;
pub mod laws;
pub mod providers;
pub mod schemes;
pub mod transaction;
pub mod users;

pub use crate::dialogue::State;
pub use crate::error::WalletError;
pub use crate::providers::{CryptoProvider, Ed25519, Sr25519};
pub use crate::schemes::Schemes;
pub use crate::users::{User, UserInfo, UsersData};
