//! Verified core of an ERC-721 gateway: the operation catalog, the
//! transaction executor's state machine and the request handling around them.

pub mod address;
pub mod error;
pub mod uint256;
pub mod catalog;
pub mod eth;
pub mod receipt;
pub mod executor;
pub mod trace;
pub mod config;
pub mod types;
pub mod http;
