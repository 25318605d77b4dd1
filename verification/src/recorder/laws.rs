//! What holds of every run of `record` and `drain` calls.

use crate::recorder::model::{deep_enough, RecordView, RecorderState};
use vstd::prelude::*;

verus! {

/// Offering a run of nodes leaves the minimum depth alone and appends to the
/// buffer exactly the nodes of the run that are deep enough, in the order in
/// which they were offered and with the depth, data and hash they came with.
pub proof fn lemma_record_all_appends_deep_enough(state: RecorderState, visits: Seq<RecordView>)
    ensures
        state.record_all(visits).min_depth == state.min_depth,
        state.record_all(visits).buffer == state.buffer + deep_enough(
            visits,
            state.min_depth,
        ),
    decreases visits.len(),
{
    reveal(Seq::filter);
    if visits.len() == 0 {
        assert(state.buffer + deep_enough(visits, state.min_depth) =~= state.buffer);
    } else {
        lemma_record_all_appends_deep_enough(state, visits.drop_last());
        let before = state.record_all(visits.drop_last());
        let kept = deep_enough(visits.drop_last(), state.min_depth);
        if visits.last().depth >= state.min_depth {
            assert(before.buffer.push(visits.last()) =~= state.buffer + kept.push(
                visits.last(),
            ));
        }
    }
}

/// Whatever nodes are offered to a fresh recorder, in whatever order, a drain
/// hands out exactly those at the minimum depth or deeper, in the order in
/// which they were offered, each unchanged.
pub proof fn lemma_drain_is_deep_enough_in_call_order(min_depth: u32, visits: Seq<RecordView>)
    ensures
        RecorderState::with_depth(min_depth).record_all(visits).drained() == deep_enough(
            visits,
            min_depth,
        ),
{
    let fresh = RecorderState::with_depth(min_depth);
    lemma_record_all_appends_deep_enough(fresh, visits);
    assert(fresh.buffer + deep_enough(visits, min_depth) =~= deep_enough(visits, min_depth));
}

/// A recorder made with minimum depth zero is a recorder made by `new`, and
/// it keeps every node it is offered.
pub proof fn lemma_zero_depth_keeps_everything(visits: Seq<RecordView>)
    ensures
        RecorderState::with_depth(0) == RecorderState::new(),
        RecorderState::new().record_all(visits).drained() == visits,
    decreases visits.len(),
{
    reveal(Seq::filter);
    lemma_drain_is_deep_enough_in_call_order(0, visits);
    if visits.len() > 0 {
        lemma_zero_depth_keeps_everything(visits.drop_last());
        lemma_drain_is_deep_enough_in_call_order(0, visits.drop_last());
        assert(visits.drop_last().push(visits.last()) =~= visits);
    }
}

/// Right after a drain the buffer is empty: a second drain hands out
/// nothing, and the minimum depth is as before.
pub proof fn lemma_second_drain_is_empty(state: RecorderState)
    ensures
        state.after_drain().drained() == Seq::<RecordView>::empty(),
        state.after_drain().after_drain() == state.after_drain(),
        state.after_drain().min_depth == state.min_depth,
{
}

/// Two rounds of offering and draining do not mix. The first drain hands out
/// what the recorder held plus the deep enough nodes of the first run, the
/// second drain only the deep enough nodes of the second run, and the two
/// results put end to end are what a single drain after both runs would have
/// handed out.
pub proof fn lemma_drains_are_independent(
    state: RecorderState,
    first: Seq<RecordView>,
    second: Seq<RecordView>,
)
    ensures
        ({
            let loaded = state.record_all(first);
            let reloaded = loaded.after_drain().record_all(second);
            &&& loaded.drained() == state.buffer + deep_enough(first, state.min_depth)
            &&& reloaded.drained() == deep_enough(second, state.min_depth)
            &&& loaded.drained() + reloaded.drained() == state.record_all(
                first + second,
            ).drained()
        }),
{
    let loaded = state.record_all(first);
    lemma_record_all_appends_deep_enough(state, first);
    lemma_record_all_appends_deep_enough(loaded.after_drain(), second);
    lemma_record_all_appends_deep_enough(state, first + second);
    Seq::filter_distributes_over_add(
        first,
        second,
        |node: RecordView| node.depth >= state.min_depth,
    );
    let kept_first = deep_enough(first, state.min_depth);
    let kept_second = deep_enough(second, state.min_depth);
    assert(Seq::<RecordView>::empty() + kept_second =~= kept_second);
    assert((state.buffer + kept_first) + kept_second =~= state.buffer + (kept_first
        + kept_second));
}

} // verus!
