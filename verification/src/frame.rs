//! The per-frame render protocol: the outcomes an image acquisition can
//! have, and the exact command sequence recorded for a frame once an
//! image is in hand.

use vstd::prelude::*;
use crate::counting::count_where;

verus! {

/// A color, each channel an intensity in tenths (0 through 10 of the
/// full scale), so that the value stays in integer arithmetic. The
/// embedding application divides by ten when it hands the color to the
/// GPU.
#[derive(Clone, Copy, Debug, PartialEq, Eq)]
pub struct ClearColor {
    pub red_tenths: u8,
    pub green_tenths: u8,
    pub blue_tenths: u8,
    pub alpha_tenths: u8,
}

impl ClearColor {
    /// Each channel stays on the scale.
    pub open spec fn wf(self) -> bool {
        self.red_tenths <= 10
            && self.green_tenths <= 10
            && self.blue_tenths <= 10
            && self.alpha_tenths <= 10
    }
}

/// The fixed background: a dark blue, fully opaque.
pub open spec fn background_spec() -> ClearColor {
    ClearColor { red_tenths: 1, green_tenths: 2, blue_tenths: 3, alpha_tenths: 10 }
}

/// The color every frame is cleared to before the draw.
pub fn background() -> (c: ClearColor)
    ensures
        c == background_spec(),
        c.wf(),
{
    ClearColor { red_tenths: 1, green_tenths: 2, blue_tenths: 3, alpha_tenths: 10 }
}

/// What acquiring the next presentable image can come to.
#[derive(Clone, Copy, Debug, PartialEq, Eq)]
pub enum AcquireOutcome {
    /// An image is in hand; the frame can be drawn.
    Acquired,
    /// The acquisition timed out. Transient: the next redraw retries.
    Timeout,
    /// The surface no longer matches the window. Transient: the next
    /// redraw retries, typically after a pending resize resolves it.
    Outdated,
    /// The surface was invalidated and must be reconfigured before any
    /// further acquisition.
    Lost,
    /// GPU memory is exhausted. Fatal: the loop must terminate.
    OutOfMemory,
}

/// One step of the recorded frame. A pass holds exclusive access to the
/// command encoder, so the pass is ended before the command buffer is
/// finished and submitted.
#[derive(Clone, Copy, Debug, PartialEq, Eq)]
pub enum RenderCommand {
    /// Open the one render pass, bound to the acquired image's view, and
    /// clear the color target.
    BeginPass(ClearColor),
    /// Bind the fixed render pipeline.
    SetPipeline,
    /// Issue one draw call.
    Draw { vertices: u32, instances: u32 },
    /// Close the render pass, releasing the encoder.
    EndPass,
    /// Enqueue the finished command buffer on the device's queue.
    Submit,
    /// Present the acquired image.
    Present,
}

/// What the frame loop does with an acquisition outcome.
#[derive(Clone, Copy, Debug, PartialEq, Eq)]
pub enum FrameDecision {
    /// Record and submit one frame, following `frame_commands`.
    Draw,
    /// Reconfigure the surface at its current configuration; no draw,
    /// no submit this tick.
    Reconfigure,
    /// Terminate the loop.
    Exit,
    /// Drop this frame attempt, touch nothing; the next redraw retries.
    Skip,
}

/// The commands of every successfully acquired frame: clear to the
/// background, bind the pipeline, draw the three vertices of the one
/// triangle in a single instance, close the pass, then submit and
/// present.
pub open spec fn frame_commands() -> Seq<RenderCommand> {
    seq![
        RenderCommand::BeginPass(background_spec()),
        RenderCommand::SetPipeline,
        RenderCommand::Draw { vertices: 3, instances: 1 },
        RenderCommand::EndPass,
        RenderCommand::Submit,
        RenderCommand::Present,
    ]
}

/// Whether a command is a draw call.
pub open spec fn is_draw(c: RenderCommand) -> bool {
    c matches RenderCommand::Draw { .. }
}

/// Record the frame: the command list of `frame_commands`, in order.
pub fn render_plan() -> (cmds: Vec<RenderCommand>)
    ensures
        cmds@ == frame_commands(),
{
    let mut cmds: Vec<RenderCommand> = Vec::new();
    cmds.push(RenderCommand::BeginPass(background()));
    cmds.push(RenderCommand::SetPipeline);
    cmds.push(RenderCommand::Draw { vertices: 3, instances: 1 });
    cmds.push(RenderCommand::EndPass);
    cmds.push(RenderCommand::Submit);
    cmds.push(RenderCommand::Present);
    proof {
        assert(cmds@ =~= frame_commands());
    }
    cmds
}

/// A sequence with no element satisfying `p` counts zero.
proof fn lemma_count_where_none<T>(s: Seq<T>, p: spec_fn(T) -> bool)
    requires
        forall|i: int| 0 <= i < s.len() ==> !p(s[i]),
    ensures
        count_where(s, p) == 0,
    decreases s.len(),
{
    if s.len() > 0 {
        lemma_count_where_none(s.drop_last(), p);
    }
}

/// A sequence whose one and only element satisfying `p` stands at `k`
/// counts one.
proof fn lemma_count_where_unique<T>(s: Seq<T>, p: spec_fn(T) -> bool, k: int)
    requires
        0 <= k < s.len(),
        p(s[k]),
        forall|i: int| 0 <= i < s.len() && i != k ==> !p(s[i]),
    ensures
        count_where(s, p) == 1,
    decreases s.len(),
{
    if k == s.len() - 1 {
        lemma_count_where_none(s.drop_last(), p);
    } else {
        lemma_count_where_unique(s.drop_last(), p, k);
    }
}

/// Frame protocol completeness: a rendered frame issues exactly one draw
/// call, of three vertices in one instance, and exactly one submit and
/// one present after it; the pass is closed before the submit.
pub proof fn lemma_frame_protocol()
    ensures
        count_where(frame_commands(), |c: RenderCommand| is_draw(c)) == 1,
        count_where(frame_commands(), |c: RenderCommand| c == RenderCommand::Submit) == 1,
        count_where(frame_commands(), |c: RenderCommand| c == RenderCommand::Present) == 1,
        frame_commands()[2] == (RenderCommand::Draw { vertices: 3, instances: 1 }),
        frame_commands()[0] == RenderCommand::BeginPass(background_spec()),
        frame_commands()[3] == RenderCommand::EndPass,
        frame_commands()[4] == RenderCommand::Submit,
        frame_commands()[5] == RenderCommand::Present,
{
    let cmds = frame_commands();
    lemma_count_where_unique(cmds, |c: RenderCommand| is_draw(c), 2);
    lemma_count_where_unique(cmds, |c: RenderCommand| c == RenderCommand::Submit, 4);
    lemma_count_where_unique(cmds, |c: RenderCommand| c == RenderCommand::Present, 5);
}

} // verus!
