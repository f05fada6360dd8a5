//! Trusted boundary to the operating system's process table, plus the one
//! verified rule on top of it: an unset process id is never probed and so is
//! never reported alive.
//!
//! The probe is a heuristic. Process ids can be recycled by the operating
//! system, so a stale id may be reported alive; the component accepts that
//! and only uses the probe to debounce replay-viewer launches.

use sysinfo::PidExt;
use sysinfo::SystemExt;
use vstd::prelude::*;

verus! {

#[verifier::external_type_specification]
#[verifier::external_body]
/// A handle onto the operating system's process table, opaque to
/// verification.
pub struct ExSystem(sysinfo::System);

/// Relies on `sysinfo::SystemExt::new`: builds a process-table handle with
/// nothing loaded yet; later probes read the process table through it.
#[verifier::external_body]
pub fn new_process_table() -> (r: sysinfo::System) {
    sysinfo::System::new()
}

/// Relies on `sysinfo::SystemExt::refresh_process_specifics`: reads the
/// operating system's process table for the given id, refreshing that
/// process's cpu data, and reports whether a process with that id currently
/// exists. The report depends on the machine's state at the time of the
/// call, so nothing more is promised of it.
#[verifier::external_body]
pub(crate) fn probe_process_alive(table: &mut sysinfo::System, pid: u32) -> (r: bool) {
    table.refresh_process_specifics(
        sysinfo::Pid::from_u32(pid),
        sysinfo::ProcessRefreshKind::new().with_cpu(),
    )
}

/// Liveness of the recorded replay process: when a process id is recorded,
/// the operating system is probed for it; when none is recorded there is
/// nothing to probe, so the answer is always `false` and a launch is never
/// debounced against a process that was never started.
pub fn recorded_process_alive(table: &mut sysinfo::System, recorded: Option<u32>) -> (r: bool)
    ensures
        recorded is None ==> r == false,
{
    match recorded {
        Some(pid) => probe_process_alive(table, pid),
        None => false,
    }
}

} // verus!
