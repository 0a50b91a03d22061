//! The presentation loop: a state machine over surface validity. The surface
//! is `Valid` when the derived frame resources match the live window size and
//! `Stale` after a resize or an out-of-date report from acquisition or
//! presentation. Frames are recorded only in `Valid`; entering `Valid` always
//! regenerates the resources in full.
//!
//! The loop context owns the state; the caller performs the backend work
//! (swapchain recreation, image acquisition, submission, presentation, event
//! polling) and hands each outcome back as a [`LoopOp`]-shaped call. Every
//! such call is pinned to the one abstract transition [`spec_step`] makes, so
//! the lemmas of [`crate::laws`] hold over every possible run of the loop.

use vstd::prelude::*;

use crate::resources::{Dims, FrameResources, FramebufferBinding, ViewportDesc, gen_frame_resources};
use crate::signal::Signal;

verus! {

/// Surface validity: `Valid` means the frame resources match the live window
/// size; `Stale` means they must be regenerated before the next frame.
#[derive(Clone, Copy, Debug, PartialEq, Eq, Structural)]
pub enum LoopState {
    Valid,
    Stale,
}

/// A window event observed while polling. Anything other than a close request
/// or a resize is ignored.
#[derive(Clone, Copy, Debug)]
pub enum WindowEvt {
    CloseRequested,
    Resized(Dims),
    Ignored,
}

/// The outcome of submitting and presenting one frame.
#[derive(Clone, Copy, Debug)]
pub enum SubmitOutcome {
    /// Submission and presentation were flushed; the signal stands for the
    /// new frame's completion.
    Completed(Signal),
    /// The surface was reported out of date: the frame is dropped and the
    /// resources must be regenerated.
    SurfaceOutOfDate,
    /// Any other per-frame failure: the frame is dropped and the loop
    /// continues.
    OtherError,
}

/// What the loop must do at the top of an iteration.
#[derive(Clone, Copy, Debug, PartialEq, Eq, Structural)]
pub enum IterationStart {
    /// The termination flag is set: exit without further backend calls.
    Exit,
    /// The surface is stale: regenerate before any acquisition.
    Regenerate,
    /// The surface is valid: acquire the next image.
    Acquire,
}

/// The surface configuration the current frame resources were derived from.
#[derive(Clone, Copy, Debug, PartialEq, Eq, Structural)]
pub struct SurfaceConfig {
    pub image_count: usize,
    pub dims: Dims,
}

/// One interaction of the loop with its collaborators, as the abstract
/// transition system sees it.
pub enum LoopOp {
    /// The backend was asked to recreate the surface: `Some` grants an image
    /// count, `None` rejects the current dimensions.
    Regenerated(Option<usize>),
    /// Image acquisition reported the surface out of date.
    AcquireOutOfDate,
    /// One frame was submitted, with its outcome.
    Submitted(SubmitOutcome),
    /// One window event was polled.
    Polled(WindowEvt),
}

/// The abstract state of the presentation loop.
pub struct LoopModel {
    pub state: LoopState,
    /// The window dimensions reported by the most recent resize processed.
    pub dims: Dims,
    /// The termination flag, set by a close request.
    pub done: bool,
    /// Whether the in-flight-frame signal is already satisfied.
    pub prev_ready: bool,
    /// The configuration the held frame resources were derived from, if any.
    pub config: Option<SurfaceConfig>,
}

/// The one transition each loop interaction makes.
pub open spec fn spec_step(m: LoopModel, op: LoopOp) -> LoopModel {
    match op {
        LoopOp::Regenerated(granted) => match granted {
            Some(n) => LoopModel {
                state: LoopState::Valid,
                config: Some(SurfaceConfig { image_count: n, dims: m.dims }),
                ..m
            },
            None => m,
        },
        LoopOp::AcquireOutOfDate => LoopModel { state: LoopState::Stale, ..m },
        LoopOp::Submitted(outcome) => match outcome {
            SubmitOutcome::Completed(s) => LoopModel { prev_ready: s.ready, ..m },
            SubmitOutcome::SurfaceOutOfDate => LoopModel {
                state: LoopState::Stale,
                prev_ready: true,
                ..m
            },
            SubmitOutcome::OtherError => LoopModel { prev_ready: true, ..m },
        },
        LoopOp::Polled(ev) => match ev {
            WindowEvt::CloseRequested => LoopModel { done: true, ..m },
            WindowEvt::Resized(d) => LoopModel { state: LoopState::Stale, dims: d, ..m },
            WindowEvt::Ignored => m,
        },
    }
}

/// The model a fresh loop starts from: no resources yet (the first iteration
/// regenerates them), the in-flight signal already satisfied, not done.
pub open spec fn initial_model(dims: Dims) -> LoopModel {
    LoopModel {
        state: LoopState::Stale,
        dims: dims,
        done: false,
        prev_ready: true,
        config: None,
    }
}

/// In `Valid`, the held frame resources were derived for exactly the
/// current window dimensions.
pub open spec fn resources_current(m: LoopModel) -> bool {
    m.state is Valid ==> (m.config matches Some(c) && c.dims == m.dims)
}

/// The owning context for the presentation loop.
pub struct LoopCtx {
    state: LoopState,
    dims: Dims,
    resources: Option<FrameResources>,
    config: Option<SurfaceConfig>,
    previous_frame: Signal,
    done: bool,
}

impl LoopCtx {
    /// The abstract state this context stands in.
    pub closed spec fn model(self) -> LoopModel {
        LoopModel {
            state: self.state,
            dims: self.dims,
            done: self.done,
            prev_ready: self.previous_frame.ready,
            config: self.config,
        }
    }

    /// Well-formedness: the held resources are exactly those derived from the
    /// held configuration, and in `Valid` the configuration exists and was
    /// derived for the current window dimensions.
    pub closed spec fn wf(self) -> bool {
        &&& match (self.config, self.resources) {
            (Some(c), Some(r)) => r.derived_from(c.image_count as nat, c.dims),
            (None, None) => true,
            _ => false,
        }
        &&& self.state is Valid ==> (self.config matches Some(c) && c.dims == self.dims)
    }

    /// A well-formed context keeps its resources current, so the run-level
    /// lemmas over [`spec_step`] apply to every context this module hands
    /// out.
    pub proof fn lemma_wf_resources_current(self)
        requires
            self.wf(),
        ensures
            resources_current(self.model()),
    {
    }

    /// A new loop over a window of the given dimensions. It starts `Stale`,
    /// so the first iteration derives the frame resources before any
    /// acquisition; the in-flight signal starts as the completed sentinel.
    pub fn new(dims: Dims) -> (c: LoopCtx)
        ensures
            c.wf(),
            c.model() == initial_model(dims),
    {
        LoopCtx {
            state: LoopState::Stale,
            dims,
            resources: None,
            config: None,
            previous_frame: Signal::completed(),
            done: false,
        }
    }

    /// Decide what an iteration begins with: exit once the termination flag
    /// is set; regenerate while the surface is stale; only in `Valid` may an
    /// image be acquired.
    pub fn begin_iteration(&self) -> (a: IterationStart)
        ensures
            a is Exit <==> self.model().done,
            a is Regenerate <==> (!self.model().done && self.model().state is Stale),
            a is Acquire <==> (!self.model().done && self.model().state is Valid),
    {
        if self.done {
            IterationStart::Exit
        } else {
            match self.state {
                LoopState::Stale => IterationStart::Regenerate,
                LoopState::Valid => IterationStart::Acquire,
            }
        }
    }

    /// Record the outcome of asking the backend to recreate the surface at
    /// the current dimensions. A granted image count regenerates the frame
    /// resources in full and enters `Valid`; a rejection (for instance of a
    /// zero-area window) changes nothing, so the loop stays `Stale` and
    /// retries on the next iteration instead of failing.
    pub fn on_regeneration(&mut self, granted: Option<usize>)
        requires
            old(self).wf(),
        ensures
            final(self).wf(),
            final(self).model() == spec_step(old(self).model(), LoopOp::Regenerated(granted)),
    {
        match granted {
            Some(n) => {
                self.resources = Some(gen_frame_resources(n, self.dims));
                self.config = Some(SurfaceConfig { image_count: n, dims: self.dims });
                self.state = LoopState::Valid;
            },
            None => {},
        }
    }

    /// Record that image acquisition reported the surface out of date: the
    /// surface becomes `Stale` and nothing else changes, so this iteration
    /// records no frame and the next one regenerates first.
    pub fn on_acquire_out_of_date(&mut self)
        requires
            old(self).wf(),
        ensures
            final(self).wf(),
            final(self).model() == spec_step(old(self).model(), LoopOp::AcquireOutOfDate),
    {
        self.state = LoopState::Stale;
    }

    /// The signal one frame's submission must wait on: the previous frame's
    /// completion joined with the acquisition signal.
    pub fn frame_dependencies(&self, acquire: Signal) -> (s: Signal)
        ensures
            s.ready == (self.model().prev_ready && acquire.ready),
    {
        self.previous_frame.join(acquire)
    }

    /// Record one frame's submission outcome. A completed submission makes
    /// its signal the new in-flight signal; an out-of-date report drops the
    /// frame and makes the surface `Stale`; any other failure drops the
    /// frame. On every failure path the in-flight signal is replaced with the
    /// already-completed sentinel, so waiting on it can never block.
    pub fn on_frame_outcome(&mut self, outcome: SubmitOutcome)
        requires
            old(self).wf(),
        ensures
            final(self).wf(),
            final(self).model() == spec_step(old(self).model(), LoopOp::Submitted(outcome)),
            !(outcome is Completed) ==> final(self).model().prev_ready,
    {
        match outcome {
            SubmitOutcome::Completed(s) => {
                self.previous_frame = s;
            },
            SubmitOutcome::SurfaceOutOfDate => {
                self.state = LoopState::Stale;
                self.previous_frame = Signal::completed();
            },
            SubmitOutcome::OtherError => {
                self.previous_frame = Signal::completed();
            },
        }
    }

    /// Process one polled window event: a close request sets the termination
    /// flag, a resize records the new dimensions and makes the surface
    /// `Stale`, and anything else is ignored.
    pub fn on_window_event(&mut self, ev: WindowEvt)
        requires
            old(self).wf(),
        ensures
            final(self).wf(),
            final(self).model() == spec_step(old(self).model(), LoopOp::Polled(ev)),
    {
        match ev {
            WindowEvt::CloseRequested => {
                self.done = true;
            },
            WindowEvt::Resized(d) => {
                self.dims = d;
                self.state = LoopState::Stale;
            },
            WindowEvt::Ignored => {},
        }
    }

    /// The framebuffer a frame for the acquired image is recorded against.
    /// Only a `Valid` surface may be drawn to, and the binding returned is
    /// for exactly the acquired image at exactly the current window
    /// dimensions — never a stale-sized one.
    pub fn frame_target(&self, image_index: usize) -> (fb: FramebufferBinding)
        requires
            self.wf(),
            self.model().state is Valid,
            self.model().config matches Some(c) && image_index < c.image_count,
        ensures
            fb == (FramebufferBinding {
                image_index: image_index,
                width: self.model().dims.width,
                height: self.model().dims.height,
            }),
    {
        match &self.resources {
            Some(r) => r.framebuffers[image_index],
            None => FramebufferBinding { image_index: 0, width: 0, height: 0 },
        }
    }

    /// The viewport frames are recorded with: the whole surface at the
    /// current window dimensions.
    pub fn viewport(&self) -> (v: ViewportDesc)
        requires
            self.wf(),
            self.model().state is Valid,
        ensures
            v == (ViewportDesc {
                origin_x: 0,
                origin_y: 0,
                width: self.model().dims.width,
                height: self.model().dims.height,
            }),
    {
        match &self.resources {
            Some(r) => r.viewport,
            None => ViewportDesc { origin_x: 0, origin_y: 0, width: 0, height: 0 },
        }
    }

    /// The image count the backend granted for the current resources, if any.
    pub fn image_count(&self) -> (n: Option<usize>)
        ensures
            match self.model().config {
                Some(c) => n == Some(c.image_count),
                None => n is None,
            },
    {
        match self.config {
            Some(c) => Some(c.image_count),
            None => None,
        }
    }

    /// The window dimensions reported by the most recent resize processed.
    pub fn current_dims(&self) -> (d: Dims)
        ensures
            d == self.model().dims,
    {
        self.dims
    }

    /// Whether the in-flight-frame signal is already satisfied.
    pub fn previous_frame_ready(&self) -> (b: bool)
        ensures
            b == self.model().prev_ready,
    {
        self.previous_frame.is_ready()
    }
}

} // verus!
