//! The renderer's state: the surface configuration, the last known
//! window size, and the fixed pipeline, with the resize rules and the
//! per-tick render decision. The GPU handles these values configure live
//! in the embedding application.

use vstd::prelude::*;
use crate::events::WindowEvent;
use crate::frame::AcquireOutcome;
use crate::frame::FrameDecision;
use crate::pipeline::PipelineSpec;
use crate::surface::Extent;
use crate::surface::SurfaceConfig;

verus! {

/// Everything the renderer holds between frames. The surface is
/// reconfigured, never recreated, so the configuration and the stored
/// size always agree, and the pipeline is the fixed one built for the
/// surface's format.
#[derive(Clone, Copy, Debug, PartialEq, Eq)]
pub struct State {
    pub config: SurfaceConfig,
    pub size: Extent,
    pub pipeline: PipelineSpec,
}

impl State {
    /// The state's invariant: a configured (non-degenerate) surface, a
    /// stored size that matches it, and the fixed pipeline bound to the
    /// surface's format.
    pub open spec fn wf(self) -> bool {
        &&& self.config.wf()
        &&& self.size.width == self.config.width
        &&& self.size.height == self.config.height
        &&& self.pipeline == PipelineSpec::build_spec(self.config.format)
    }

    /// Set up the renderer for a window of the given size, once the
    /// startup negotiation has settled on a pixel format.
    pub fn new(width: u32, height: u32, format: u32) -> (s: State)
        requires
            width > 0,
            height > 0,
        ensures
            s.wf(),
            s.config == SurfaceConfig::new_spec(format, width, height),
            s.config.format == format,
            s.config.width == width,
            s.config.height == height,
    {
        let config = SurfaceConfig::new(format, width, height);
        State {
            config,
            size: Extent { width, height },
            pipeline: PipelineSpec::build(format),
        }
    }

    /// Whether a resize to this size reconfigures the surface: only a
    /// size with both dimensions non-zero does.
    pub open spec fn resize_reconfigures(width: u32, height: u32) -> bool {
        width > 0 && height > 0
    }

    /// The state after a resize: retargeted to the new size when both
    /// dimensions are non-zero, untouched otherwise.
    pub open spec fn resize_spec(self, width: u32, height: u32) -> State {
        if State::resize_reconfigures(width, height) {
            State {
                config: self.config.with_size_spec(width, height),
                size: Extent { width, height },
                ..self
            }
        } else {
            self
        }
    }

    /// Take a new window size. A size with a zero dimension (a minimised
    /// or degenerate window) is ignored outright: nothing stored changes
    /// and the surface is not touched. Otherwise the stored size and the
    /// configuration move to the new size, and the caller must
    /// reconfigure the surface with `self.config` exactly when the
    /// result is true.
    pub fn resize(&mut self, width: u32, height: u32) -> (reconfigure: bool)
        requires
            old(self).wf(),
        ensures
            final(self).wf(),
            *final(self) == old(self).resize_spec(width, height),
            reconfigure == State::resize_reconfigures(width, height),
    {
        if width > 0 && height > 0 {
            self.size = Extent { width, height };
            self.config = self.config.with_size(width, height);
            true
        } else {
            false
        }
    }

    /// Input-classification hook, run before a window event reaches the
    /// close, exit and resize handling. Consuming an event would mark it
    /// fully handled and suppress that handling; today nothing is
    /// consumed and nothing stored changes.
    pub fn input(&mut self, _event: &WindowEvent) -> (consumed: bool)
        ensures
            *final(self) == *old(self),
            !consumed,
    {
        false
    }

    /// Per-frame update hook. It mutates nothing today; it is the
    /// designated place for future simulation state.
    pub fn update(&mut self)
        ensures
            *final(self) == *old(self),
    {
    }

    /// What a tick does with an acquisition outcome: draw on success,
    /// reconfigure at the current configuration when the surface was
    /// lost, terminate on memory exhaustion, and skip the frame on any
    /// transient failure.
    pub open spec fn render_decision(outcome: AcquireOutcome) -> FrameDecision {
        match outcome {
            AcquireOutcome::Acquired => FrameDecision::Draw,
            AcquireOutcome::Lost => FrameDecision::Reconfigure,
            AcquireOutcome::OutOfMemory => FrameDecision::Exit,
            AcquireOutcome::Timeout => FrameDecision::Skip,
            AcquireOutcome::Outdated => FrameDecision::Skip,
        }
    }

    /// Decide the current tick from the acquisition outcome. The state
    /// itself never changes here: even the lost-surface recovery
    /// reconfigures at the size stored before the failure.
    pub fn render(&self, outcome: AcquireOutcome) -> (d: FrameDecision)
        ensures
            d == State::render_decision(outcome),
            d == FrameDecision::Draw <==> outcome == AcquireOutcome::Acquired,
            d == FrameDecision::Exit <==> outcome == AcquireOutcome::OutOfMemory,
            d == FrameDecision::Reconfigure <==> outcome == AcquireOutcome::Lost,
    {
        match outcome {
            AcquireOutcome::Acquired => FrameDecision::Draw,
            AcquireOutcome::Lost => FrameDecision::Reconfigure,
            AcquireOutcome::OutOfMemory => FrameDecision::Exit,
            AcquireOutcome::Timeout => FrameDecision::Skip,
            AcquireOutcome::Outdated => FrameDecision::Skip,
        }
    }
}

/// Idempotent reconfiguration: a resize to the surface's current size
/// leaves the state exactly as it was.
pub proof fn lemma_resize_idempotent(s: State)
    requires
        s.wf(),
    ensures
        s.resize_spec(s.config.width, s.config.height) == s,
{
}

/// The zero-dimension guard: a resize with either dimension zero leaves
/// the state untouched and never reconfigures the surface.
pub proof fn lemma_resize_zero_guard(s: State, width: u32, height: u32)
    requires
        width == 0 || height == 0,
    ensures
        s.resize_spec(width, height) == s,
        !State::resize_reconfigures(width, height),
{
}

} // verus!
