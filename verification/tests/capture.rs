use bevy_renderdoc::model::tick_step;
use bevy_renderdoc::process_probe::{new_process_table, recorded_process_alive};
use bevy_renderdoc::{build_session, log_path_template, BuildOutcome, TickObs};
use sysinfo::PidExt;

fn edge(probe_alive: bool, launch_pid: Option<u32>) -> TickObs {
    TickObs { key_available: true, just_pressed: true, probe_alive, launch_pid }
}

#[test]
fn never_pressed_keeps_pid_unset() {
    let mut recorded: Option<u32> = None;
    let mut total_launches: u32 = 0;
    let ticks = [
        TickObs { key_available: false, just_pressed: false, probe_alive: false, launch_pid: None },
        TickObs { key_available: true, just_pressed: false, probe_alive: true, launch_pid: Some(9) },
        TickObs { key_available: false, just_pressed: false, probe_alive: true, launch_pid: Some(3) },
        TickObs { key_available: true, just_pressed: false, probe_alive: false, launch_pid: Some(8) },
    ];
    for obs in ticks {
        let (next, fired) = tick_step(recorded, obs);
        if fired {
            total_launches += 1;
        }
        recorded = next;
    }
    assert!(recorded.is_none());
    assert_eq!(total_launches, 0);
}

#[test]
fn edge_with_no_recorded_id_launches() {
    // Whatever the probe would say, an unset id never debounces the launch.
    let (recorded, fired) = tick_step(None, edge(false, Some(7)));
    assert!(fired);
    assert_eq!(recorded, Some(7));
    let (recorded, fired) = tick_step(None, edge(true, Some(7)));
    assert!(fired);
    assert_eq!(recorded, Some(7));
}

#[test]
fn missing_input_source_is_a_no_op() {
    let obs = TickObs { key_available: false, just_pressed: true, probe_alive: false, launch_pid: Some(7) };
    let (recorded, fired) = tick_step(None, obs);
    assert!(!fired);
    assert!(recorded.is_none());
}

#[test]
fn second_edge_with_live_process_debounced() {
    let mut total_launches: u32 = 0;
    let (recorded, fired) = tick_step(None, edge(false, Some(42)));
    if fired {
        total_launches += 1;
    }
    let (recorded, fired) = tick_step(recorded, edge(true, Some(99)));
    if fired {
        total_launches += 1;
    }
    assert_eq!(total_launches, 1);
    assert_eq!(recorded, Some(42));
}

#[test]
fn dead_process_relaunches() {
    let (recorded, fired) = tick_step(Some(42), edge(false, Some(43)));
    assert!(fired);
    assert_eq!(recorded, Some(43));
}

#[test]
fn failed_launch_keeps_recorded_id() {
    let (recorded, fired) = tick_step(Some(5), edge(false, None));
    assert!(fired);
    assert_eq!(recorded, Some(5));
    let (recorded, fired) = tick_step(None, edge(false, None));
    assert!(fired);
    assert!(recorded.is_none());
}

#[test]
fn attach_failure_is_harmless() {
    // No capture library is installed on this machine, so the attach fails;
    // the failure must come back as a value to log, never as a panic, and it
    // carries no session, so no tick and no launch can ever follow it.
    let outcome = build_session(false, false);
    match outcome {
        BuildOutcome::AttachFailed(message) => assert!(!message.is_empty()),
        BuildOutcome::InvalidOrder => panic!("registration was wrongly rejected"),
        BuildOutcome::Ready(_) => panic!("attach cannot succeed without the capture library"),
    }
}

#[test]
fn late_registration_rejected() {
    assert!(matches!(build_session(true, false), BuildOutcome::InvalidOrder));
    assert!(matches!(build_session(false, true), BuildOutcome::InvalidOrder));
    assert!(matches!(build_session(true, true), BuildOutcome::InvalidOrder));
}

#[test]
fn log_path_template_value() {
    assert_eq!(log_path_template(), "renderdoc/bevy_capture");
}

#[test]
fn unset_id_never_reported_alive() {
    let mut table = new_process_table();
    assert!(!recorded_process_alive(&mut table, None));
}

#[test]
fn probe_finds_this_process_alive() {
    let own_pid = sysinfo::get_current_pid().expect("current process id").as_u32();
    let mut table = new_process_table();
    assert!(recorded_process_alive(&mut table, Some(own_pid)));
}

#[test]
fn probe_reports_missing_process_dead() {
    // Far above the kernel's default pid ceiling, so no such process exists.
    let mut table = new_process_table();
    assert!(!recorded_process_alive(&mut table, Some(99_999_999)));
}
