//! Verified core of a command-line client for a permissioned blockchain
//! network: a recursive command tree with a duplicate-rejecting builder and a
//! pure dispatch algorithm, a crypto-provider abstraction with fixed-length
//! hash/address/signature types, a canonical transaction encoder, and the
//! transaction build-and-sign pipeline. Network transport, wallet storage and
//! argument-grammar parsing live outside this crate and hand plain values in.

pub mod bench;
pub mod bytesutil;
pub mod cmd;
pub mod codec;
pub mod context;
pub mod crypto;
pub mod errors;
pub mod evm;
pub mod hexutil;
pub mod transaction;
