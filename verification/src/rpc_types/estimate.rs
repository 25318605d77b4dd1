use crate::rpc_types::{Data, Data20, Quantity};
use vstd::prelude::*;

verus! {

/// A request to estimate what a call would cost. Every part is optional.
#[derive(Debug, Clone, Hash, PartialEq, Eq)]
pub struct EstimateRequest {
    pub from: Option<Data20>,
    pub to: Option<Data20>,
    pub value: Option<Quantity>,
    pub data: Option<Data>,
}

impl EstimateRequest {
    pub fn new(
        from: Option<Data20>,
        to: Option<Data20>,
        value: Option<Quantity>,
        data: Option<Data>,
    ) -> (request: EstimateRequest)
        ensures
            request.from == from,
            request.to == to,
            request.value == value,
            request.data == data,
    {
        EstimateRequest { from, to, value, data }
    }
}

} // verus!
