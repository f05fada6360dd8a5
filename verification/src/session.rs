//! The capture session itself: attach and configure once at startup, then
//! one replay-launch step per scheduler tick.
//!
//! [`build_session`] holds the startup decisions: it refuses to come up when
//! a renderer device or window store already exists, attaches to the capture
//! library, and configures the capture output. [`CaptureSession::handle_tick`]
//! is the per-tick step; its contract ties what it did to one step of the
//! machine in [`crate::model`], for the observation the outcome implies.

use crate::capture_api::{
    rd_attach, rd_error_message, rd_launch_replay_ui, rd_mask_overlay_bits,
    rd_set_log_file_path_template,
};
use crate::model::{launches, registration_rejected, step, TickObs};
use crate::process_probe::{new_process_table, recorded_process_alive};
use vstd::prelude::*;

verus! {

/// Overlay mask bits that leave no overlay element enabled: applied as both
/// the and-mask and the or-mask, they switch the on-screen overlay off.
pub const OVERLAY_MASK_NONE: u32 = 0;

/// The path template under which the capture library stores capture files,
/// fixed for this component and not exposed as a runtime option.
pub open spec fn spec_log_path_template() -> Seq<char> {
    "renderdoc/bevy_capture"@
}

/// The fixed capture-file path template, as an executable string.
pub fn log_path_template() -> (r: &'static str)
    ensures
        r@ == spec_log_path_template(),
{
    "renderdoc/bevy_capture"
}

/// A live capture session: the attached capture API handle, a process-table
/// handle for liveness probes, and the recorded replay process id. One value
/// of this type exists per run, owned by the host's single-threaded
/// scheduling context for the application's lifetime.
pub struct CaptureSession {
    rd: renderdoc::RenderDoc<renderdoc::V110>,
    process_table: sysinfo::System,
    replay_pid: Option<u32>,
}

/// What registering the component led to.
pub enum BuildOutcome {
    /// A renderer device or window store already existed, so the capture
    /// library could not instrument the renderer: the component stays inert
    /// for this run and the condition is reported in the host's log.
    InvalidOrder,
    /// Attach succeeded and the capture output is configured: the session is
    /// ready to take one tick per frame.
    Ready(CaptureSession),
    /// Attach failed, permanently for this run; the message describes why.
    /// Capture features stay unavailable and the host runs on unaffected.
    AttachFailed(String),
}

/// What one tick of the session did.
pub enum TickOutcome {
    /// No input source was available or no trigger edge was seen: a no-op.
    Idle,
    /// A trigger edge was seen, but the recorded replay process was reported
    /// still alive, so no second viewer was launched.
    Debounced,
    /// A launch call was issued and succeeded: the viewer runs under this
    /// process id, now the recorded one.
    Launched(u32),
    /// A launch call was issued and failed; the message describes why. The
    /// recorded id is kept, and the next trigger edge retries.
    LaunchFailed(String),
}

/// The observation a finished tick implies: the probe reported the recorded
/// process alive exactly on a debounced tick, and the launch call returned
/// an id exactly on a successful launch.
pub open spec fn obs_of_outcome(key_available: bool, just_pressed: bool, r: TickOutcome) -> TickObs {
    TickObs {
        key_available,
        just_pressed,
        probe_alive: r is Debounced,
        launch_pid: match r {
            TickOutcome::Launched(pid) => Some(pid),
            _ => None,
        },
    }
}

/// Register the component: refuse when a renderer device or window store is
/// already present, otherwise attach to the capture library and, on
/// success, configure the capture-file path template and switch the overlay
/// off. Runs once, strictly before the host's rendering subsystem comes up.
/// Every failure is an outcome to be logged, never a panic: a failed attach
/// leaves the host application untouched.
pub fn build_session(has_render_device: bool, has_window_store: bool) -> (r: BuildOutcome)
    ensures
        (r is InvalidOrder) == registration_rejected(has_render_device, has_window_store),
        r matches BuildOutcome::Ready(s) ==> s.recorded_pid() is None,
{
    if has_render_device || has_window_store {
        return BuildOutcome::InvalidOrder;
    }
    match rd_attach() {
        Ok(mut rd) => {
            let template = log_path_template();
            proof {
                reveal_strlit("renderdoc/bevy_capture");
                assert(!template@.contains('\0'));
            }
            rd_set_log_file_path_template(&mut rd, template);
            rd_mask_overlay_bits(&mut rd, OVERLAY_MASK_NONE, OVERLAY_MASK_NONE);
            BuildOutcome::Ready(
                CaptureSession { rd, process_table: new_process_table(), replay_pid: None },
            )
        },
        Err(e) => BuildOutcome::AttachFailed(rd_error_message(&e)),
    }
}

impl CaptureSession {
    /// The replay process id recorded by the last successful launch, `None`
    /// while no launch has succeeded yet.
    pub closed spec fn recorded_pid(&self) -> Option<u32> {
        self.replay_pid
    }

    /// Point the capture library at another capture-file path template. The
    /// session sets the fixed template once when it is built; the host may
    /// change it later through the session, which is a supported use. The
    /// template must hold no NUL character; the recorded replay process id
    /// is untouched.
    pub fn set_log_path_template(&mut self, template: &str)
        requires
            !template@.contains('\0'),
        ensures
            final(self).recorded_pid() == old(self).recorded_pid(),
    {
        rd_set_log_file_path_template(&mut self.rd, template);
    }

    /// One scheduler tick: a no-op without an input source or a trigger
    /// edge; otherwise probe the recorded process and, unless it is still
    /// alive, issue one launch call, recording the returned process id on
    /// success and keeping the old one on failure. The contract pins each
    /// outcome to one step of the replay-launch machine, taken on the
    /// observation the outcome implies.
    pub fn handle_tick(&mut self, key_available: bool, just_pressed: bool) -> (r: TickOutcome)
        ensures
            (r is Idle) == !(key_available && just_pressed),
            r is Debounced ==> old(self).recorded_pid() is Some,
            old(self).recorded_pid() is None && key_available && just_pressed ==> (r is Launched
                || r is LaunchFailed),
            (r is Launched || r is LaunchFailed) == launches(
                old(self).recorded_pid(),
                obs_of_outcome(key_available, just_pressed, r),
            ),
            final(self).recorded_pid() == step(
                old(self).recorded_pid(),
                obs_of_outcome(key_available, just_pressed, r),
            ),
    {
        if !(key_available && just_pressed) {
            return TickOutcome::Idle;
        }
        let recorded = self.replay_pid;
        if recorded_process_alive(&mut self.process_table, recorded) {
            return TickOutcome::Debounced;
        }
        match rd_launch_replay_ui(&self.rd, true, None) {
            Ok(pid) => {
                self.replay_pid = Some(pid);
                TickOutcome::Launched(pid)
            },
            Err(e) => TickOutcome::LaunchFailed(rd_error_message(&e)),
        }
    }
}

} // verus!
