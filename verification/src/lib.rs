//! Core of a read-only client for an Ethereum node's JSON-RPC interface:
//! the hex codec, the response decoder, the response cache, the retry
//! policy, the per-query client logic and the gas statistics, each with a
//! machine-checked contract.

pub mod text;
pub mod hex;
pub mod primitives;
pub mod json;
pub mod entities;
pub mod decode;
pub mod cache;
pub mod retry;
pub mod query;
pub mod rpc;
pub mod gas;
pub mod utils;
pub mod explorer;
