//! The values of the earlier RPC interface, in which an amount is thirty-two
//! raw bytes.

pub use crate::rpc_types::{Data, Data20, Data32};

pub mod estimate;
pub mod peer;
