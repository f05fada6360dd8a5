//! The replay-launch state machine.
//!
//! The only mutable state of the component is the recorded replay process id,
//! `Option<u32>`: `None` until a launch succeeds, then the id of the last
//! viewer the component spawned. Each scheduler tick observes its
//! surroundings — input availability, the trigger-key edge, what a liveness
//! probe of the recorded process would report, and what a launch attempt
//! would return — and the spec functions here say which ticks issue a launch
//! call and how the recorded id changes. The proof functions state the laws
//! of the machine over whole tick sequences.

use vstd::prelude::*;

verus! {

/// What one scheduler tick of the replay-launch task can observe from its
/// surroundings: whether a keyboard input source exists, whether the trigger
/// key went from released to pressed this tick, whether a liveness probe of
/// the recorded process id would report it alive, and the process id a
/// launch attempt would return (`None` when the launch fails).
pub struct TickObs {
    /// A keyboard input source is available this tick.
    pub key_available: bool,
    /// The trigger key saw a released-to-pressed edge this tick.
    pub just_pressed: bool,
    /// A liveness probe of the recorded process id would report it running.
    pub probe_alive: bool,
    /// The process id a launch attempt would return, `None` on failure.
    pub launch_pid: Option<u32>,
}

/// An input source exists and the trigger key saw a released-to-pressed edge.
pub open spec fn edge_seen(obs: TickObs) -> bool {
    obs.key_available && obs.just_pressed
}

/// The launch is debounced: a process id is recorded and the liveness probe
/// reports that process as still running.
pub open spec fn debounced(recorded: Option<u32>, obs: TickObs) -> bool {
    recorded is Some && obs.probe_alive
}

/// A tick issues a launch call exactly when the trigger edge is seen and the
/// launch is not debounced.
pub open spec fn launches(recorded: Option<u32>, obs: TickObs) -> bool {
    edge_seen(obs) && !debounced(recorded, obs)
}

/// The recorded process id after one tick: a successful launch overwrites
/// it; a failed launch, a debounced tick and an idle tick leave it as it was.
pub open spec fn step(recorded: Option<u32>, obs: TickObs) -> Option<u32> {
    if launches(recorded, obs) {
        match obs.launch_pid {
            Some(pid) => Some(pid),
            None => recorded,
        }
    } else {
        recorded
    }
}

/// The recorded process id after a whole sequence of ticks.
pub open spec fn run_ticks(recorded: Option<u32>, ticks: Seq<TickObs>) -> Option<u32>
    decreases ticks.len(),
{
    if ticks.len() == 0 {
        recorded
    } else {
        run_ticks(step(recorded, ticks[0]), ticks.drop_first())
    }
}

/// How many launch calls a sequence of ticks issues.
pub open spec fn launch_count(recorded: Option<u32>, ticks: Seq<TickObs>) -> nat
    decreases ticks.len(),
{
    if ticks.len() == 0 {
        0
    } else {
        (if launches(recorded, ticks[0]) { 1nat } else { 0nat })
            + launch_count(step(recorded, ticks[0]), ticks.drop_first())
    }
}

/// The component registers too late when a renderer device or a window store
/// already exists: the capture library could no longer instrument the
/// renderer, so the component disables itself for the run.
pub open spec fn registration_rejected(has_render_device: bool, has_window_store: bool) -> bool {
    has_render_device || has_window_store
}

/// The session configures the capture output exactly when registration came
/// early enough and the attach call succeeded.
pub open spec fn session_configures(rejected: bool, attach_ok: bool) -> bool {
    !rejected && attach_ok
}

/// How many launch calls the whole component issues over a run: none unless
/// a session came up, else one per launching tick.
pub open spec fn session_launch_count(rejected: bool, attach_ok: bool, ticks: Seq<TickObs>) -> nat {
    if session_configures(rejected, attach_ok) {
        launch_count(None, ticks)
    } else {
        0
    }
}

/// One tick of the replay-launch machine on explicit observations: returns
/// the new recorded id and whether this tick issues a launch call.
/// [`crate::session::CaptureSession::handle_tick`] makes the probe and
/// launch calls itself; this form takes their results as inputs, so it is
/// verified for every value of them and can be run on concrete values.
pub fn tick_step(recorded: Option<u32>, obs: TickObs) -> (r: (Option<u32>, bool))
    ensures
        r.0 == step(recorded, obs),
        r.1 == launches(recorded, obs),
{
    let fires: bool = obs.key_available && obs.just_pressed && !(recorded.is_some()
        && obs.probe_alive);
    if fires {
        match obs.launch_pid {
            Some(pid) => (Some(pid), true),
            None => (recorded, true),
        }
    } else {
        (recorded, false)
    }
}

/// With the trigger key never pressed, the recorded process id stays unset
/// and no launch call is issued, over any sequence of ticks.
pub proof fn lemma_never_pressed_inert(ticks: Seq<TickObs>)
    requires
        forall|i: int| 0 <= i < ticks.len() ==> !ticks[i].just_pressed,
    ensures
        run_ticks(None, ticks) is None,
        launch_count(None, ticks) == 0,
    decreases ticks.len(),
{
    if ticks.len() > 0 {
        assert(!launches(None, ticks[0]));
        assert(forall|i: int|
            0 <= i < ticks.drop_first().len() ==> !ticks.drop_first()[i].just_pressed);
        lemma_never_pressed_inert(ticks.drop_first());
    }
}

/// A trigger edge with no recorded process id always issues exactly one
/// launch call on that tick.
pub proof fn lemma_edge_without_recorded_launches(obs: TickObs)
    requires
        obs.key_available,
        obs.just_pressed,
    ensures
        launches(None, obs),
        launch_count(None, seq![obs]) == 1,
{
    reveal_with_fuel(launch_count, 2);
    assert(seq![obs].drop_first() =~= Seq::<TickObs>::empty());
}

/// Two consecutive trigger edges, the first launch succeeding and the
/// recorded process reported alive on the second edge, issue exactly one
/// launch call in total.
pub proof fn lemma_second_edge_debounced(first: TickObs, second: TickObs, pid: u32)
    requires
        first.key_available,
        first.just_pressed,
        first.launch_pid == Some(pid),
        second.key_available,
        second.just_pressed,
        second.probe_alive,
    ensures
        run_ticks(None, seq![first, second]) == Some(pid),
        launch_count(None, seq![first, second]) == 1,
{
    reveal_with_fuel(run_ticks, 3);
    reveal_with_fuel(launch_count, 3);
    let ticks = seq![first, second];
    assert(ticks.drop_first() =~= seq![second]);
    assert(seq![second].drop_first() =~= Seq::<TickObs>::empty());
    assert(step(None, first) == Some(pid));
    assert(!launches(Some(pid), second));
}

/// A trigger edge with the liveness probe reporting the recorded process
/// dead issues a launch call, whatever id was recorded before.
pub proof fn lemma_dead_process_relaunches(recorded: Option<u32>, obs: TickObs)
    requires
        obs.key_available,
        obs.just_pressed,
        !obs.probe_alive,
    ensures
        launches(recorded, obs),
{
}

/// A failed attach never leads to a configure call or a launch call, over
/// any number of ticks: the session only configures and only ticks when the
/// attach call succeeded.
pub proof fn lemma_attach_failure_inert(rejected: bool, ticks: Seq<TickObs>)
    ensures
        !session_configures(rejected, false),
        session_launch_count(rejected, false, ticks) == 0,
{
}

/// Registering after a renderer device or window store is already present
/// leaves the component inert: it never configures the capture output and
/// never issues a launch call, whatever the attach call would have returned.
pub proof fn lemma_late_registration_inert(attach_ok: bool, ticks: Seq<TickObs>)
    ensures
        registration_rejected(true, false),
        registration_rejected(false, true),
        !session_configures(true, attach_ok),
        session_launch_count(true, attach_ok, ticks) == 0,
{
}

} // verus!
