//! A local signing service for a privacy-preserving ledger.
//!
//! The library holds the decisions of the signer: how secrets are hashed and
//! checked, where each network's state lives and how it is saved and restored,
//! which requests need the user's authorization, and how concurrent signing
//! requests are kept apart. The surrounding program performs the I/O.

pub mod app_state;
pub mod config;
pub mod http;
pub mod log;
pub mod messages;
mod network;
mod secret;
pub mod prompt;
pub mod setup;
pub mod signing;
pub mod storage;

pub use app_state::AppState;
pub use config::{Config, DataExistenceResponse, FilePath, DEFAULT_SERVICE_URL, PATH_IDENTIFIER};
pub use log::Level;
pub use network::{Message, Network, NetworkSpecific};
pub use secret::{Password, PasswordHash, PasswordMismatch, HASH_OUTPUT_LEN, MAX_PASSWORD_LEN, SALT_LEN};
pub use setup::{Mnemonic, Setup, UserSelection};
pub use signing::{MockUser, TransactionSummary, TransactionType};
