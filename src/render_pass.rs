use vstd::prelude::*;

verus! {

/// Index of the subpass in which the engine draws its viewport.
pub const VIEWPORT_SUBPASS: u32 = 0;

/// Index of the subpass in which the UI is drawn over the viewport.
pub const UI_SUBPASS: u32 = 1;

/// The steps of recording and presenting one frame of the final render pass.
#[derive(Debug, Clone, Copy, PartialEq, Eq, Structural)]
pub enum FramePhase {
    /// Acquire the next swapchain image and build its framebuffer.
    Acquire,
    /// Begin the render pass, clearing to the engine's background colour.
    BeginPass,
    /// Ask the engine for the viewport's secondary command buffer.
    DrawViewport,
    /// Execute the command buffer that the engine supplied.
    ExecuteViewport,
    /// Move on to the UI subpass.
    NextSubpass,
    /// Record the UI and execute its command buffer.
    DrawUi,
    /// End the render pass and build the primary command buffer.
    EndPass,
    /// Submit the primary command buffer to the graphics queue.
    Submit,
    /// Present the image.
    Present,
    /// The frame is finished.
    Done,
}

/// The step after `phase`. The engine's viewport commands are executed only
/// when it supplied some; every other step has one successor.
pub open spec fn phase_after(phase: FramePhase, viewport_supplied: bool) -> FramePhase {
    match phase {
        FramePhase::Acquire => FramePhase::BeginPass,
        FramePhase::BeginPass => FramePhase::DrawViewport,
        FramePhase::DrawViewport => if viewport_supplied {
            FramePhase::ExecuteViewport
        } else {
            FramePhase::NextSubpass
        },
        FramePhase::ExecuteViewport => FramePhase::NextSubpass,
        FramePhase::NextSubpass => FramePhase::DrawUi,
        FramePhase::DrawUi => FramePhase::EndPass,
        FramePhase::EndPass => FramePhase::Submit,
        FramePhase::Submit => FramePhase::Present,
        FramePhase::Present => FramePhase::Done,
        FramePhase::Done => FramePhase::Done,
    }
}

/// Every step of one frame, from the first to `Done`.
pub open spec fn frame_order(viewport_supplied: bool) -> Seq<FramePhase> {
    let head = seq![FramePhase::Acquire, FramePhase::BeginPass, FramePhase::DrawViewport];
    let middle = if viewport_supplied {
        seq![FramePhase::ExecuteViewport]
    } else {
        Seq::empty()
    };
    let tail = seq![
        FramePhase::NextSubpass,
        FramePhase::DrawUi,
        FramePhase::EndPass,
        FramePhase::Submit,
        FramePhase::Present,
        FramePhase::Done,
    ];
    head + middle + tail
}

/// Decides the step that follows `phase` while a frame is recorded;
/// `viewport_supplied` tells whether the engine handed over a command buffer
/// for the viewport.
pub fn next_phase(phase: FramePhase, viewport_supplied: bool) -> (r: FramePhase)
    ensures
        r == phase_after(phase, viewport_supplied),
{
    match phase {
        FramePhase::Acquire => FramePhase::BeginPass,
        FramePhase::BeginPass => FramePhase::DrawViewport,
        FramePhase::DrawViewport => {
            if viewport_supplied {
                FramePhase::ExecuteViewport
            } else {
                FramePhase::NextSubpass
            }
        },
        FramePhase::ExecuteViewport => FramePhase::NextSubpass,
        FramePhase::NextSubpass => FramePhase::DrawUi,
        FramePhase::DrawUi => FramePhase::EndPass,
        FramePhase::EndPass => FramePhase::Submit,
        FramePhase::Submit => FramePhase::Present,
        FramePhase::Present => FramePhase::Done,
        FramePhase::Done => FramePhase::Done,
    }
}

/// Stepping with `next_phase` from `Acquire` walks through `frame_order`
/// and stops at `Done`: the pass is begun before anything is drawn, the
/// viewport comes before the UI, the render pass ends before the submission,
/// and presenting is last.
pub proof fn lemma_frame_order(viewport_supplied: bool)
    ensures
        frame_order(viewport_supplied)[0] == FramePhase::Acquire,
        frame_order(viewport_supplied).last() == FramePhase::Done,
        forall|i: int|
            0 <= i < frame_order(viewport_supplied).len() - 1 ==> phase_after(
                #[trigger] frame_order(viewport_supplied)[i],
                viewport_supplied,
            ) == frame_order(viewport_supplied)[i + 1],
        phase_after(FramePhase::Done, viewport_supplied) == FramePhase::Done,
        frame_order(viewport_supplied).contains(FramePhase::ExecuteViewport) == viewport_supplied,
{
    let s = frame_order(viewport_supplied);
    if viewport_supplied {
        assert(s =~= seq![
            FramePhase::Acquire,
            FramePhase::BeginPass,
            FramePhase::DrawViewport,
            FramePhase::ExecuteViewport,
            FramePhase::NextSubpass,
            FramePhase::DrawUi,
            FramePhase::EndPass,
            FramePhase::Submit,
            FramePhase::Present,
            FramePhase::Done,
        ]);
        assert(s[3] == FramePhase::ExecuteViewport);
    } else {
        assert(s =~= seq![
            FramePhase::Acquire,
            FramePhase::BeginPass,
            FramePhase::DrawViewport,
            FramePhase::NextSubpass,
            FramePhase::DrawUi,
            FramePhase::EndPass,
            FramePhase::Submit,
            FramePhase::Present,
            FramePhase::Done,
        ]);
        assert forall|i: int| 0 <= i < s.len() implies s[i] != FramePhase::ExecuteViewport by {}
    }
}

} // verus!
