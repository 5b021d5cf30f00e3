use hatchery::{
    loop_actions, next_phase, FramePhase, Log, LogSeverity, Logger, LoopAction, LoopEvent,
    WindowEventKind, WindowOptions, DEFAULT_EDGE, DEFAULT_TITLE, UI_SUBPASS, VIEWPORT_SUBPASS,
};

fn window(kind: WindowEventKind, consumed_by_ui: bool) -> Vec<LoopAction> {
    loop_actions(LoopEvent::Window { kind, consumed_by_ui })
}

fn walk_frame(viewport_supplied: bool) -> Vec<FramePhase> {
    let mut phase = FramePhase::Acquire;
    let mut seen = vec![phase];
    while phase != FramePhase::Done {
        phase = next_phase(phase, viewport_supplied);
        seen.push(phase);
        assert!(seen.len() <= 20);
    }
    seen
}

#[test]
fn default_window_options() {
    let w = WindowOptions::default();
    assert_eq!(w.title, "Hatchery App");
    assert_eq!(w.dimensions, [300, 300]);
    assert_eq!(DEFAULT_TITLE, "Hatchery App");
    assert_eq!(DEFAULT_EDGE, 300);
}

#[test]
fn unconsumed_window_event_reaches_engine() {
    assert_eq!(window(WindowEventKind::Other, false), vec![LoopAction::ForwardToEngine]);
}

#[test]
fn consumed_window_event_does_nothing_more() {
    assert_eq!(window(WindowEventKind::Other, true), vec![]);
}

#[test]
fn resize_rebuilds_swapchain() {
    assert_eq!(
        window(WindowEventKind::Resized, false),
        vec![LoopAction::ForwardToEngine, LoopAction::ResizeRenderer]
    );
    assert_eq!(window(WindowEventKind::Resized, true), vec![LoopAction::ResizeRenderer]);
    assert_eq!(
        window(WindowEventKind::ScaleFactorChanged, true),
        vec![LoopAction::ResizeRenderer]
    );
    assert_eq!(
        window(WindowEventKind::ScaleFactorChanged, false),
        vec![LoopAction::ForwardToEngine, LoopAction::ResizeRenderer]
    );
}

#[test]
fn close_request_stops_then_exits() {
    assert_eq!(
        window(WindowEventKind::CloseRequested, false),
        vec![LoopAction::ForwardToEngine, LoopAction::StopEngine, LoopAction::Exit]
    );
    assert_eq!(
        window(WindowEventKind::CloseRequested, true),
        vec![LoopAction::StopEngine, LoopAction::Exit]
    );
}

#[test]
fn redraw_rebuilds_ui_then_draws() {
    assert_eq!(
        loop_actions(LoopEvent::RedrawRequested),
        vec![LoopAction::RebuildUi, LoopAction::DrawFrame]
    );
}

#[test]
fn cleared_events_request_redraw() {
    assert_eq!(loop_actions(LoopEvent::MainEventsCleared), vec![LoopAction::RequestRedraw]);
}

#[test]
fn other_events_are_ignored() {
    assert_eq!(loop_actions(LoopEvent::Other), vec![]);
}

#[test]
fn frame_with_viewport_commands() {
    assert_eq!(
        walk_frame(true),
        vec![
            FramePhase::Acquire,
            FramePhase::BeginPass,
            FramePhase::DrawViewport,
            FramePhase::ExecuteViewport,
            FramePhase::NextSubpass,
            FramePhase::DrawUi,
            FramePhase::EndPass,
            FramePhase::Submit,
            FramePhase::Present,
            FramePhase::Done,
        ]
    );
}

#[test]
fn frame_without_viewport_commands() {
    assert_eq!(
        walk_frame(false),
        vec![
            FramePhase::Acquire,
            FramePhase::BeginPass,
            FramePhase::DrawViewport,
            FramePhase::NextSubpass,
            FramePhase::DrawUi,
            FramePhase::EndPass,
            FramePhase::Submit,
            FramePhase::Present,
            FramePhase::Done,
        ]
    );
}

#[test]
fn done_stays_done() {
    assert_eq!(next_phase(FramePhase::Done, true), FramePhase::Done);
    assert_eq!(next_phase(FramePhase::Done, false), FramePhase::Done);
}

#[test]
fn viewport_subpass_precedes_ui_subpass() {
    assert_eq!(VIEWPORT_SUBPASS, 0);
    assert_eq!(UI_SUBPASS, 1);
}

#[test]
fn new_logger_is_empty() {
    let logger = Logger::new();
    assert_eq!(logger.len(), 0);
    assert!(logger.logs().is_empty());
}

#[test]
fn logger_keeps_entries_in_order() {
    let mut logger = Logger::new();
    logger.push(Log::new("first".to_string(), LogSeverity::INFO, 1_700_000_000_000));
    logger.push(Log::new("second".to_string(), LogSeverity::ERROR, -5));
    logger.push(Log::new(String::new(), LogSeverity::WARN, i64::MAX));
    assert_eq!(logger.len(), 3);
    let logs = logger.logs();
    assert_eq!(logs[0].message(), "first");
    assert_eq!(logs[0].severity(), LogSeverity::INFO);
    assert_eq!(logs[0].time_millis(), 1_700_000_000_000);
    assert_eq!(logs[1].message(), "second");
    assert_eq!(logs[1].severity(), LogSeverity::ERROR);
    assert_eq!(logs[1].time_millis(), -5);
    assert_eq!(logs[2].message(), "");
    assert_eq!(logs[2].severity(), LogSeverity::WARN);
    assert_eq!(logs[2].time_millis(), i64::MAX);
}

#[test]
fn log_keeps_its_fields() {
    let log = Log::new("verbose detail".to_string(), LogSeverity::VERBOSE, 0);
    assert_eq!(log.message(), "verbose detail");
    assert_eq!(log.severity(), LogSeverity::VERBOSE);
    assert_eq!(log.time_millis(), 0);
}
