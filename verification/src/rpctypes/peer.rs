use crate::types::Address;
use vstd::prelude::*;

verus! {

/// One node of the network, as its neighbours know it.
#[derive(Debug, PartialEq, Clone)]
pub struct Peer {
    pub id: u32,
    pub port: u16,
    pub ip: String,
    pub proposer: Address,
}

/// The nodes that a node is connected to.
#[derive(Debug, PartialEq, Clone)]
pub struct Peers {
    pub peers: Vec<Peer>,
}

} // verus!
