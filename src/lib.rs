//! Application scaffolding around a Vulkan renderer and an immediate-mode UI:
//! window options, an in-memory log, the decisions of the event loop, and the
//! order in which each frame is recorded.

pub mod launcher;
pub mod log;
pub mod render_pass;

pub use launcher::{
    loop_actions, LoopAction, LoopEvent, WindowEventKind, WindowOptions, DEFAULT_EDGE,
    DEFAULT_TITLE,
};
pub use log::{Log, LogSeverity, Logger};
pub use render_pass::{next_phase, FramePhase, UI_SUBPASS, VIEWPORT_SUBPASS};
