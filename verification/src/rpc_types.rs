//! The values that a request over RPC is made of.

use crate::types::{Bytes, H160, H256, U256};
use vstd::prelude::*;

pub mod estimate;

verus! {

/// Raw bytes of any length.
#[derive(Clone, Debug, PartialEq, Eq, Hash)]
pub struct Data(pub Bytes);

/// Exactly twenty bytes.
#[derive(Clone, Debug, PartialEq, Eq, Hash)]
pub struct Data20(pub H160);

/// Exactly thirty-two bytes.
#[derive(Clone, Debug, PartialEq, Eq, Hash)]
pub struct Data32(pub H256);

/// An amount.
#[derive(Clone, Debug, PartialEq, Eq, Hash)]
pub struct Quantity(pub U256);

} // verus!
