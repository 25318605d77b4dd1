//! Trie query recorder.

use crate::hash::{crypt_hash, crypt_hash_of};
use crate::recorder::model::{RecordView, RecorderState};
use crate::types::{bytes_eq, Bytes, H256};
use vstd::prelude::*;

pub mod laws;
pub mod model;

verus! {

/// A record of a visited node.
#[derive(Debug)]
pub struct Record {
    /// The depth of this node.
    pub depth: u32,
    /// The raw data of the node.
    pub data: Bytes,
    /// The hash of the data.
    pub hash: H256,
}

impl View for Record {
    type V = RecordView;

    open spec fn view(&self) -> RecordView {
        RecordView { depth: self.depth, data: self.data@, hash: self.hash@ }
    }
}

impl Clone for Record {
    fn clone(&self) -> (copy: Record)
        ensures
            copy@ == self@,
    {
        Record { depth: self.depth, data: self.data.clone(), hash: self.hash }
    }
}

impl PartialEq for Record {
    fn eq(&self, other: &Self) -> (same: bool) {
        proof {
            H256::lemma_view_is_injective(self.hash, other.hash);
        }
        self.depth == other.depth && bytes_eq(self.data.as_slice(), other.data.as_slice())
            && self.hash == other.hash
    }
}

impl vstd::std_specs::cmp::PartialEqSpecImpl for Record {
    open spec fn obeys_eq_spec() -> bool {
        true
    }

    open spec fn eq_spec(&self, other: &Self) -> bool {
        self@ == other@
    }
}

impl Eq for Record {

}

/// The views of a run of records, in the same order.
pub open spec fn views(records: Seq<Record>) -> Seq<RecordView> {
    records.map_values(|r: Record| r@)
}

/// Records trie nodes as they pass it.
#[derive(Debug)]
pub struct Recorder {
    nodes: Vec<Record>,
    min_depth: u32,
}

impl View for Recorder {
    type V = RecorderState;

    closed spec fn view(&self) -> RecorderState {
        RecorderState { buffer: views(self.nodes@), min_depth: self.min_depth }
    }
}

impl Default for Recorder {
    fn default() -> (recorder: Recorder)
        ensures
            recorder@ == RecorderState::new(),
    {
        Recorder::new()
    }
}

impl Recorder {
    /// Every record in the buffer carries the content hash of its own data.
    #[verifier::type_invariant]
    spec fn all_sound(self) -> bool {
        forall|i: int| 0 <= i < self.nodes@.len() ==> (#[trigger] self.nodes@[i])@.is_sound()
    }

    /// Create a new `Recorder` which records all given nodes.
    #[inline]
    pub fn new() -> (recorder: Recorder)
        ensures
            recorder@ == RecorderState::new(),
    {
        Recorder::with_depth(0)
    }

    /// Create a `Recorder` which only records nodes at a given depth or beyond.
    pub fn with_depth(depth: u32) -> (recorder: Recorder)
        ensures
            recorder@ == RecorderState::with_depth(depth),
    {
        let recorder = Recorder { nodes: Vec::new(), min_depth: depth };
        assert(recorder@.buffer =~= Seq::empty());
        recorder
    }

    /// Record a visited node, given its hash, data, and depth.
    ///
    /// The caller vouches that `hash` is the content hash of `data`.
    pub fn record(&mut self, hash: &H256, data: &[u8], depth: u32)
        requires
            hash@ == crypt_hash_of(data@),
        ensures
            final(self)@ == old(self)@.record(
                RecordView { depth, data: data@, hash: hash@ },
            ),
    {
        proof {
            use_type_invariant(&*self);
        }
        if depth >= self.min_depth {
            let record = Record { depth, data: vstd::slice::slice_to_vec(data), hash: *hash };
            // The buffer is taken out while it grows, so that what `self`
            // holds is sound at every step.
            let mut nodes: Vec<Record> = Vec::new();
            core::mem::swap(&mut self.nodes, &mut nodes);
            nodes.push(record);
            self.nodes = nodes;
            assert(views(self.nodes@) =~= views(old(self).nodes@).push(record@));
        }
    }

    /// Record a visited node after checking it: the node is offered to
    /// `record` if `hash` is the content hash of `data`, and left out
    /// otherwise. The result tells which.
    pub fn record_checked(&mut self, hash: &H256, data: &[u8], depth: u32) -> (sound: bool)
        ensures
            sound == (hash@ == crypt_hash_of(data@)),
            sound ==> final(self)@ == old(self)@.record(
                RecordView { depth, data: data@, hash: hash@ },
            ),
            !sound ==> final(self)@ == old(self)@,
    {
        let digest = crypt_hash(data);
        proof {
            H256::lemma_view_is_injective(digest, *hash);
        }
        if digest == *hash {
            self.record(hash, data, depth);
            true
        } else {
            false
        }
    }

    /// Drain all visited records.
    pub fn drain(&mut self) -> (records: Vec<Record>)
        ensures
            views(records@) == old(self)@.drained(),
            records@.len() == old(self)@.drained().len(),
            forall|i: int|
                0 <= i < records@.len() ==> (#[trigger] records@[i])@ == old(self)@.drained()[i],
            forall|i: int| 0 <= i < records@.len() ==> (#[trigger] records@[i])@.is_sound(),
            final(self)@ == old(self)@.after_drain(),
    {
        proof {
            use_type_invariant(&*self);
        }
        let mut records: Vec<Record> = Vec::new();
        core::mem::swap(&mut self.nodes, &mut records);
        assert(views(self.nodes@) =~= Seq::empty());
        records
    }
}

} // verus!
