//! Capture-session management for a frame-capture graphics debugger.
//!
//! The crate tracks one replay-viewer process for a host application: it
//! attaches to the capture library before any rendering device exists,
//! configures the capture output once, and, on a trigger-key edge each frame,
//! launches the replay viewer unless the previously launched one is still
//! alive. The per-tick behaviour is stated as a small state machine over the
//! recorded process id, and the laws of that machine are proved in [`model`].

pub mod capture_api;
pub mod model;
pub mod process_probe;
pub mod session;

pub use model::TickObs;
pub use session::{BuildOutcome, CaptureSession, TickOutcome};
pub use session::{build_session, log_path_template};
