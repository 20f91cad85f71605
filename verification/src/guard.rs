use vstd::prelude::*;

use crate::sentry_event::opt_ts_view;

verus! {

/// The single piece of cross-event state: the creation timestamp of the most
/// recently admitted event, empty at process start. Passed explicitly into
/// the guard so callers can seed and inspect it.
pub struct PipelineState {
    /// The current watermark, in seconds; `None` before any event advanced it.
    pub last_accepted: Option<i64>,
}

impl View for PipelineState {
    type V = Option<int>;

    open spec fn view(&self) -> Option<int> {
        opt_ts_view(self.last_accepted)
    }
}

impl PipelineState {
    /// A fresh state with no watermark.
    pub fn new() -> (r: PipelineState)
        ensures
            r@ == None::<int>,
    {
        PipelineState { last_accepted: None }
    }
}

/// Whether the guard admits an event with this creation timestamp against
/// this watermark: an event without a timestamp is always admitted, and a
/// timestamped one exactly when no strictly newer event was admitted before
/// (an equal timestamp does not reject).
pub open spec fn spec_admits(last: Option<int>, ts: Option<int>) -> bool {
    match ts {
        None => true,
        Some(t) => match last {
            None => true,
            Some(l) => l <= t,
        },
    }
}

/// The watermark after the guard saw this timestamp: an admitted timestamp
/// becomes the new watermark, and anything else leaves it unchanged.
pub open spec fn spec_watermark_after(last: Option<int>, ts: Option<int>) -> Option<int> {
    match ts {
        None => last,
        Some(t) => if spec_admits(last, ts) {
            Some(t)
        } else {
            last
        },
    }
}

/// The arrival-order guard: admits the event and advances the watermark, or
/// rejects a strictly-older timestamp without touching the state.
pub fn admit_event(state: &mut PipelineState, ts: Option<i64>) -> (b: bool)
    ensures
        b == spec_admits(old(state)@, opt_ts_view(ts)),
        final(state)@ == spec_watermark_after(old(state)@, opt_ts_view(ts)),
{
    match ts {
        None => true,
        Some(t) => match state.last_accepted {
            Some(l) if l > t => false,
            _ => {
                state.last_accepted = Some(t);
                true
            },
        },
    }
}

/// The watermark after a whole run of the guard over a sequence of
/// creation timestamps, in arrival order.
pub open spec fn spec_watermark_run(init: Option<int>, ts: Seq<Option<int>>) -> Option<int>
    decreases ts.len(),
{
    if ts.len() == 0 {
        init
    } else {
        spec_watermark_after(spec_watermark_run(init, ts.drop_last()), ts.last())
    }
}

/// Whether the event at position `i` of a run is admitted.
pub open spec fn spec_run_admits(init: Option<int>, ts: Seq<Option<int>>, i: int) -> bool {
    spec_admits(spec_watermark_run(init, ts.take(i)), ts[i])
}

/// One watermark is at most another: an absent watermark precedes
/// everything, and present ones compare by value.
pub open spec fn watermark_le(a: Option<int>, b: Option<int>) -> bool {
    match a {
        None => true,
        Some(x) => match b {
            Some(y) => x <= y,
            None => false,
        },
    }
}

/// The watermark never moves backward over a run.
proof fn lemma_watermark_run_grows(init: Option<int>, ts: Seq<Option<int>>, k: int, l: int)
    requires
        0 <= k <= l <= ts.len(),
    ensures
        watermark_le(spec_watermark_run(init, ts.take(k)), spec_watermark_run(init, ts.take(l))),
    decreases l - k,
{
    if k < l {
        lemma_watermark_run_grows(init, ts, k, l - 1);
        let prev = spec_watermark_run(init, ts.take(l - 1));
        assert(ts.take(l).drop_last() =~= ts.take(l - 1));
        assert(ts.take(l).last() == ts[l - 1]);
        assert(spec_watermark_run(init, ts.take(l)) == spec_watermark_after(prev, ts[l - 1]));
    }
}

/// Watermark monotonicity: in any run of the guard, an admitted event's
/// timestamp is never strictly less than the timestamp of an event admitted
/// before it.
pub proof fn lemma_watermark_monotonic(
    init: Option<int>,
    ts: Seq<Option<int>>,
    i: int,
    j: int,
    ti: int,
    tj: int,
)
    requires
        0 <= i < j < ts.len(),
        ts[i] == Some(ti),
        ts[j] == Some(tj),
        spec_run_admits(init, ts, i),
        spec_run_admits(init, ts, j),
    ensures
        ti <= tj,
{
    assert(ts.take(i + 1).drop_last() =~= ts.take(i));
    assert(ts.take(i + 1).last() == ts[i]);
    assert(spec_watermark_run(init, ts.take(i + 1)) == Some(ti));
    lemma_watermark_run_grows(init, ts, i + 1, j);
}

} // verus!
