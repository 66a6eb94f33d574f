//! Stateless building blocks for a ledger gateway: key and address codecs,
//! Ed25519 signing and verification, and construction of native-transfer and
//! token-program instructions, each with a verified contract.

pub mod address;
pub mod codec;
pub mod error;
pub mod handlers;
pub mod instruction;
pub mod models;
pub mod signing;
