use crate::rpctypes::{Data, Data20, Data32};
use vstd::prelude::*;

verus! {

/// A request to estimate what a call would cost. Every part is optional.
#[derive(Debug, Clone, Hash, PartialEq, Eq)]
pub struct EstimateRequest {
    pub from: Option<Data20>,
    pub to: Option<Data20>,
    pub value: Option<Data32>,
    pub data: Option<Data>,
}

impl EstimateRequest {
    pub fn new(
        from: Option<Data20>,
        to: Option<Data20>,
        value: Option<Data32>,
        data: Option<Data>,
    ) -> (request: EstimateRequest)
        ensures
            request.from == from,
            request.to == to,
            request.value == value,
            request.data == data,
    {
        EstimateRequest { from, to, value, data }
    }
}

} // verus!
