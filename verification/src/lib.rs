//! Query client core for an Electrum-style indexing server.
//!
//! Given a cryptocurrency address, the library classifies its script
//! pattern, reconstructs the exact spending script, hashes it into the
//! server's lookup key (a script hash, sent in reversed byte order), and
//! models each server query as a typed command with a verified response
//! decoder.

pub mod address;
pub mod command;
pub mod domain;
pub mod errors;
pub mod hexstr;
pub mod script;
pub mod script_hash;

pub use address::classify;
pub use address::AddressKind;
pub use command::ProtocolCommand;
pub use command::ResponseValue;
pub use domain::AddressBalance;
pub use domain::HistoricalTransaction;
pub use domain::Utxo;
pub use errors::QueryError;
pub use script::build_script;
pub use script_hash::get_script_hash_for_address;
pub use script_hash::ScriptHash;
