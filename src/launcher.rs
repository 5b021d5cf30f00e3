use vstd::prelude::*;

verus! {

/// Title of the window when none is chosen.
pub const DEFAULT_TITLE: &'static str = "Hatchery App";

/// Width and height, in pixels, of the window when none are chosen.
pub const DEFAULT_EDGE: u32 = 300;

/// Display options for the window.
#[derive(Debug, Clone, Copy)]
pub struct WindowOptions {
    pub title: &'static str,
    pub dimensions: [u32; 2],
}

impl Default for WindowOptions {
    /// A square window of 300 by 300 pixels titled "Hatchery App".
    fn default() -> (r: Self)
        ensures
            r.title@ == DEFAULT_TITLE@,
            r.dimensions@ == seq![DEFAULT_EDGE, DEFAULT_EDGE],
    {
        let r = WindowOptions { title: DEFAULT_TITLE, dimensions: [DEFAULT_EDGE, DEFAULT_EDGE] };
        assert(r.dimensions@ =~= seq![DEFAULT_EDGE, DEFAULT_EDGE]);
        r
    }
}

} // verus!

verus! {

/// The window events that the loop itself reacts to; any other window event
/// is only passed on.
#[derive(Debug, Clone, Copy, PartialEq, Eq, Structural)]
pub enum WindowEventKind {
    Resized,
    ScaleFactorChanged,
    CloseRequested,
    Other,
}

/// An event of the event loop, as the loop sees it.
#[derive(Debug, Clone, Copy, PartialEq, Eq, Structural)]
pub enum LoopEvent {
    /// A window event, after it was offered to the UI backend, which reports
    /// whether it used it.
    Window { kind: WindowEventKind, consumed_by_ui: bool },
    /// The window asks to be drawn again.
    RedrawRequested,
    /// All pending events of this iteration have been handled.
    MainEventsCleared,
    /// Anything else.
    Other,
}

/// One thing the loop does in answer to an event.
#[derive(Debug, Clone, Copy, PartialEq, Eq, Structural)]
pub enum LoopAction {
    /// Hand the window event to the engine.
    ForwardToEngine,
    /// Rebuild the swapchain of the primary renderer for the new size.
    ResizeRenderer,
    /// Let the engine know that it is about to close.
    StopEngine,
    /// Leave the event loop.
    Exit,
    /// Run the engine's UI code for this frame.
    RebuildUi,
    /// Record, submit and present a frame.
    DrawFrame,
    /// Ask the window for a redraw.
    RequestRedraw,
}

/// The actions that answer a window event: the engine sees the event unless
/// the UI used it, then resizes and close requests are handled.
pub open spec fn window_plan(kind: WindowEventKind, consumed_by_ui: bool) -> Seq<LoopAction> {
    let forwarded = if consumed_by_ui {
        Seq::empty()
    } else {
        seq![LoopAction::ForwardToEngine]
    };
    let handled = match kind {
        WindowEventKind::Resized => seq![LoopAction::ResizeRenderer],
        WindowEventKind::ScaleFactorChanged => seq![LoopAction::ResizeRenderer],
        WindowEventKind::CloseRequested => seq![LoopAction::StopEngine, LoopAction::Exit],
        WindowEventKind::Other => Seq::empty(),
    };
    forwarded + handled
}

/// The actions, in order, that answer an event of the loop.
pub open spec fn loop_plan(event: LoopEvent) -> Seq<LoopAction> {
    match event {
        LoopEvent::Window { kind, consumed_by_ui } => window_plan(kind, consumed_by_ui),
        LoopEvent::RedrawRequested => seq![LoopAction::RebuildUi, LoopAction::DrawFrame],
        LoopEvent::MainEventsCleared => seq![LoopAction::RequestRedraw],
        LoopEvent::Other => Seq::empty(),
    }
}

/// Decides what the event loop does with one event.
pub fn loop_actions(event: LoopEvent) -> (r: Vec<LoopAction>)
    ensures
        r@ == loop_plan(event),
{
    let mut r: Vec<LoopAction> = Vec::new();
    match event {
        LoopEvent::Window { kind, consumed_by_ui } => {
            if !consumed_by_ui {
                r.push(LoopAction::ForwardToEngine);
            }
            match kind {
                WindowEventKind::Resized | WindowEventKind::ScaleFactorChanged => {
                    r.push(LoopAction::ResizeRenderer);
                },
                WindowEventKind::CloseRequested => {
                    r.push(LoopAction::StopEngine);
                    r.push(LoopAction::Exit);
                },
                WindowEventKind::Other => {},
            }
        },
        LoopEvent::RedrawRequested => {
            r.push(LoopAction::RebuildUi);
            r.push(LoopAction::DrawFrame);
        },
        LoopEvent::MainEventsCleared => {
            r.push(LoopAction::RequestRedraw);
        },
        LoopEvent::Other => {},
    }
    assert(r@ =~= loop_plan(event));
    r
}

} // verus!

verus! {

/// The loop leaves only when the window asks to close, and then it stops the
/// engine just before it leaves; a window event reaches the engine exactly
/// when the UI did not use it, and before anything else is done about it.
pub proof fn lemma_loop_plan(event: LoopEvent)
    ensures
        loop_plan(event).contains(LoopAction::Exit) <==> (event matches LoopEvent::Window {
            kind,
            ..
        } && kind == WindowEventKind::CloseRequested),
        loop_plan(event).contains(LoopAction::Exit) ==> {
            let s = loop_plan(event);
            &&& s.len() >= 2
            &&& s.last() == LoopAction::Exit
            &&& s[s.len() - 2] == LoopAction::StopEngine
        },
        loop_plan(event).contains(LoopAction::ForwardToEngine) <==> (event matches LoopEvent::Window {
            consumed_by_ui,
            ..
        } && !consumed_by_ui),
        loop_plan(event).contains(LoopAction::ForwardToEngine) ==> loop_plan(event)[0]
            == LoopAction::ForwardToEngine,
{
    let s = loop_plan(event);
    match event {
        LoopEvent::Window { kind, consumed_by_ui } => {
            let f: Seq<LoopAction> = if consumed_by_ui {
                Seq::empty()
            } else {
                seq![LoopAction::ForwardToEngine]
            };
            match kind {
                WindowEventKind::Resized | WindowEventKind::ScaleFactorChanged => {
                    assert(s =~= f + seq![LoopAction::ResizeRenderer]);
                },
                WindowEventKind::CloseRequested => {
                    assert(s =~= f + seq![LoopAction::StopEngine, LoopAction::Exit]);
                    assert(s[s.len() - 1] == LoopAction::Exit);
                },
                WindowEventKind::Other => {
                    assert(s =~= f);
                },
            }
            if consumed_by_ui {
                assert(!s.contains(LoopAction::ForwardToEngine));
            } else {
                assert(s[0] == LoopAction::ForwardToEngine);
            }
        },
        LoopEvent::RedrawRequested => {
            assert(s[0] != LoopAction::Exit && s[1] != LoopAction::Exit);
        },
        LoopEvent::MainEventsCleared => {
            assert(s[0] != LoopAction::Exit);
        },
        LoopEvent::Other => {},
    }
}

} // verus!
