//! Properties of the presentation loop that hold over every possible run:
//! every mutating call on [`LoopCtx`](crate::presentation::LoopCtx) is pinned
//! to [`spec_step`], so what is proved here of arbitrary interaction
//! sequences holds of the executable loop as well.

use vstd::prelude::*;

use crate::presentation::{resources_current, spec_step, LoopModel, LoopOp, SubmitOutcome, WindowEvt};
use crate::resources::Dims;

verus! {

/// Run a sequence of interactions from `m`, in order.
pub open spec fn spec_run(m: LoopModel, ops: Seq<LoopOp>) -> LoopModel
    decreases ops.len(),
{
    if ops.len() == 0 {
        m
    } else {
        spec_step(spec_run(m, ops.drop_last()), ops.last())
    }
}

/// One interaction keeps the resources current: regeneration derives them
/// from the current dimensions, and a resize makes the surface `Stale`
/// before its new dimensions could ever be drawn against.
pub proof fn lemma_step_keeps_resources_current(m: LoopModel, op: LoopOp)
    requires
        resources_current(m),
    ensures
        resources_current(spec_step(m, op)),
{
}

/// Any sequence of interactions keeps the resources current.
pub proof fn lemma_run_keeps_resources_current(m: LoopModel, ops: Seq<LoopOp>)
    requires
        resources_current(m),
    ensures
        resources_current(spec_run(m, ops)),
    decreases ops.len(),
{
    if ops.len() > 0 {
        lemma_run_keeps_resources_current(m, ops.drop_last());
        lemma_step_keeps_resources_current(spec_run(m, ops.drop_last()), ops.last());
    }
}

/// The dimensions of the most recent resize in `ops`, or `d0` when none is.
pub open spec fn latest_dims(d0: Dims, ops: Seq<LoopOp>) -> Dims
    decreases ops.len(),
{
    if ops.len() == 0 {
        d0
    } else {
        match ops.last() {
            LoopOp::Polled(WindowEvt::Resized(d)) => d,
            _ => latest_dims(d0, ops.drop_last()),
        }
    }
}

/// After any run, the loop's current dimensions are those of the most recent
/// resize processed, or the starting dimensions when none was.
pub proof fn lemma_dims_track_latest_resize(m: LoopModel, ops: Seq<LoopOp>)
    ensures
        spec_run(m, ops).dims == latest_dims(m.dims, ops),
    decreases ops.len(),
{
    if ops.len() > 0 {
        lemma_dims_track_latest_resize(m, ops.drop_last());
    }
}

/// For every sequence of resize events interleaved with frame iterations:
/// whenever the loop stands in `Valid` — the only state in which a frame may
/// be recorded — its frame resources were derived for exactly the dimensions
/// reported by the most recent resize processed (or the starting dimensions
/// when none was). No frame is ever recorded against stale-sized
/// framebuffers.
pub proof fn lemma_frames_match_latest_resize(m: LoopModel, ops: Seq<LoopOp>)
    requires
        resources_current(m),
    ensures
        spec_run(m, ops).state is Valid ==> (spec_run(m, ops).config matches Some(c)
            && c.dims == latest_dims(m.dims, ops)),
{
    lemma_run_keeps_resources_current(m, ops);
    lemma_dims_track_latest_resize(m, ops);
}

/// Regeneration is idempotent: processing the same successful regeneration
/// twice in a row leaves the loop in exactly the state that processing it
/// once does — same resource configuration, same per-image bindings.
pub proof fn lemma_regeneration_idempotent(m: LoopModel, n: usize)
    ensures
        spec_step(
            spec_step(m, LoopOp::Regenerated(Some(n))),
            LoopOp::Regenerated(Some(n)),
        ) == spec_step(m, LoopOp::Regenerated(Some(n))),
{
}

/// The in-flight-frame sentinel substituted after any failure path is
/// immediately satisfiable: after a dropped frame the in-flight signal is
/// ready, so waiting on it never blocks.
pub proof fn lemma_failure_sentinel_ready(m: LoopModel, outcome: SubmitOutcome)
    requires
        !(outcome is Completed),
    ensures
        spec_step(m, LoopOp::Submitted(outcome)).prev_ready,
{
}

/// Whether an interaction is the polling of a close request.
pub open spec fn is_close(op: LoopOp) -> bool {
    op matches LoopOp::Polled(WindowEvt::CloseRequested)
}

/// Whether a run contains the polling of a close request.
pub open spec fn saw_close(ops: Seq<LoopOp>) -> bool {
    exists|i: int| 0 <= i < ops.len() && is_close(#[trigger] ops[i])
}

/// A polled close request sets the termination flag and nothing ever clears
/// it: after any run the flag is set exactly when it was already set or a
/// close request was polled. `begin_iteration` turns a set flag into `Exit`,
/// so the loop terminates within one iteration of observing the close
/// request and issues no further acquire, submit or present call.
pub proof fn lemma_close_terminates(m: LoopModel, ops: Seq<LoopOp>)
    ensures
        spec_run(m, ops).done == (m.done || saw_close(ops)),
    decreases ops.len(),
{
    if ops.len() == 0 {
        assert(!saw_close(ops));
    } else {
        let prefix = ops.drop_last();
        lemma_close_terminates(m, prefix);
        if is_close(ops.last()) {
            assert(is_close(ops[ops.len() - 1]));
            assert(saw_close(ops));
        }
        if saw_close(prefix) {
            let i = choose|i: int| 0 <= i < prefix.len() && is_close(#[trigger] prefix[i]);
            assert(is_close(ops[i]));
            assert(saw_close(ops));
        }
        if saw_close(ops) && !is_close(ops.last()) {
            let i = choose|i: int| 0 <= i < ops.len() && is_close(#[trigger] ops[i]);
            assert(i < ops.len() - 1);
            assert(is_close(prefix[i]));
            assert(saw_close(prefix));
        }
    }
}

/// Whether an interaction is a regeneration the backend granted.
pub open spec fn is_successful_regen(op: LoopOp) -> bool {
    op matches LoopOp::Regenerated(Some(_))
}

/// Once the surface is `Stale` — as it is after acquisition or presentation
/// reports it out of date — it stays `Stale` through any run that contains
/// no granted regeneration. While `Stale`, `begin_iteration` prescribes
/// regeneration and never acquisition, and `frame_target` admits no
/// recording: an out-of-date iteration draws and presents nothing, and the
/// next iteration must regenerate before any acquisition.
pub proof fn lemma_stale_until_regenerated(m: LoopModel, ops: Seq<LoopOp>)
    requires
        m.state is Stale,
        forall|i: int| 0 <= i < ops.len() ==> !is_successful_regen(#[trigger] ops[i]),
    ensures
        spec_run(m, ops).state is Stale,
    decreases ops.len(),
{
    if ops.len() > 0 {
        let prefix = ops.drop_last();
        assert forall|i: int| 0 <= i < prefix.len() implies !is_successful_regen(
            #[trigger] prefix[i],
        ) by {
            assert(prefix[i] == ops[i]);
        }
        lemma_stale_until_regenerated(m, prefix);
        assert(!is_successful_regen(ops[ops.len() - 1]));
    }
}

} // verus!
