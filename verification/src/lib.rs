//! Recording of the trie nodes that a lookup visits, and the plain data types
//! that travel with it.

pub mod from_into;
pub mod hash;
pub mod recorder;
pub mod rpc_types;
pub mod rpctypes;
pub mod types;
