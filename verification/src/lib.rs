//! Backend-agnostic remote signing core: domain-separated signing hashes,
//! signature normalization and encoding, JSON-RPC method dispatch, and a
//! per-key signer cache, written against a capability interface so that any
//! key-custody backend can stand behind it.

pub mod adapter;
pub mod cache;
pub mod config;
pub mod dispatch;
pub mod errors;
pub mod hash;
pub mod hexfmt;
pub mod hexparse;
pub mod jsonrpc;
pub mod numeral;
pub mod payload;
pub mod sigcodec;
