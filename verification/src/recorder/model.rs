//! What a recorder is, told without its memory layout: a run of visited
//! nodes and a threshold.

use crate::hash::crypt_hash_of;
use vstd::prelude::*;

verus! {

/// What a `Record` stands for: the three values of one visited node.
pub struct RecordView {
    pub depth: u32,
    pub data: Seq<u8>,
    pub hash: Seq<u8>,
}

impl RecordView {
    /// The hash is the content hash of the data.
    pub open spec fn is_sound(self) -> bool {
        self.hash == crypt_hash_of(self.data)
    }
}

/// What a `Recorder` stands for: the nodes it holds, oldest first, and the
/// depth below which it ignores a node.
pub struct RecorderState {
    pub buffer: Seq<RecordView>,
    pub min_depth: u32,
}

impl RecorderState {
    /// An empty recorder that keeps the nodes at `min_depth` or deeper.
    pub open spec fn with_depth(min_depth: u32) -> RecorderState {
        RecorderState { buffer: Seq::empty(), min_depth }
    }

    /// An empty recorder that keeps every node.
    pub open spec fn new() -> RecorderState {
        RecorderState::with_depth(0)
    }

    /// The state after one visited node is offered: it goes to the end of the
    /// buffer if it is deep enough, and nowhere otherwise.
    pub open spec fn record(self, node: RecordView) -> RecorderState {
        if node.depth >= self.min_depth {
            RecorderState { buffer: self.buffer.push(node), min_depth: self.min_depth }
        } else {
            self
        }
    }

    /// The state after the nodes of `visits` are offered one by one, first to
    /// last.
    pub open spec fn record_all(self, visits: Seq<RecordView>) -> RecorderState
        decreases visits.len(),
    {
        if visits.len() == 0 {
            self
        } else {
            self.record_all(visits.drop_last()).record(visits.last())
        }
    }

    /// What a drain hands out.
    pub open spec fn drained(self) -> Seq<RecordView> {
        self.buffer
    }

    /// The state that a drain leaves behind.
    pub open spec fn after_drain(self) -> RecorderState {
        RecorderState { buffer: Seq::empty(), min_depth: self.min_depth }
    }
}

/// The nodes of `visits` at `min_depth` or deeper, in the order in which they came.
pub open spec fn deep_enough(visits: Seq<RecordView>, min_depth: u32) -> Seq<RecordView> {
    visits.filter(|node: RecordView| node.depth >= min_depth)
}

} // verus!
