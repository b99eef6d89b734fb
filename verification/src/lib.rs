//! A contract that wraps the native token and approved cw20 tokens of a
//! CosmWasm chain into one cw20 token, against a fee.
pub mod contract;
pub mod error;
pub mod governance;
pub mod guarantees;
pub mod laws;
pub mod limits;
pub mod msg;
pub mod reply;
pub mod state;
pub mod text;
pub mod token;
pub mod utils;
pub mod wrapping;
