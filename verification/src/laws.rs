//! Properties of the supervision engine that span several transitions,
//! stated and proved once over the specification-level step functions. The
//! executable methods are each proved equal to those step functions, so
//! everything here holds of the running code as well.

use vstd::prelude::*;

use crate::registry::{spec_monitor, unique_names};
use crate::supervisor::{Event, ServiceState};
use crate::types::{Action, ExitStatus, Pending, ServiceDef, State, Target};
use crate::{MAX_BACKOFF_MS, MIN_BACKOFF_MS};

verus! {

/// A freshly registered service whose dependencies are all ready — in
/// particular one with no dependencies at all — moves to `Running` on
/// events alone, or to `Error` when the launch fails, with no control
/// command in between.
pub proof fn lemma_no_deps_progress(pid: u64, stop_signal: u32)
    ensures
        ({
            let s0 = ServiceState::spec_initial();
            let (s1, a1) = ServiceState::spec_try_spawn(s0, true);
            let (s2, a2) = ServiceState::spec_launched(s1, pid, false, stop_signal);
            let (sp, ap) = ServiceState::spec_launched(s1, pid, true, stop_signal);
            let (s3, a3) = ServiceState::spec_probe_passed(sp);
            let (s4, a4) = ServiceState::spec_launch_failed(s1);
            &&& s1.state == State::Spawning && a1 == Action::Launch
            &&& s2.state == State::Running
            &&& ap == Action::RunProbe && s3.state == State::Running
            &&& s4.state == State::Error
        }),
{
}

/// Only the spawn step asks for a launch, and only from `Blocked` with no
/// live process; only the launch event records a pid, and only in
/// `Spawning` with none recorded. Names being unique in the registry, at
/// most one live process can exist per service name, whatever commands
/// and events arrive.
pub proof fn lemma_single_launch(
    s: ServiceState,
    deps_ok: bool,
    pid: u64,
    has_probe: bool,
    stop_signal: u32,
    signal: u32,
    exit: ExitStatus,
    oneshot: bool,
)
    requires
        s.wf(),
    ensures
        ServiceState::spec_try_spawn(s, deps_ok).1 == Action::Launch ==> s.state == State::Blocked
            && s.pid is None && deps_ok,
        ServiceState::spec_launched(s, pid, has_probe, stop_signal).0.pid != s.pid ==> s.state
            == State::Spawning && s.pid is None,
        ServiceState::spec_launched(s, pid, has_probe, stop_signal).1 != Action::Launch,
        ServiceState::spec_launch_failed(s).1 != Action::Launch,
        ServiceState::spec_probe_passed(s).1 != Action::Launch,
        ServiceState::spec_probe_failed(s, stop_signal).1 != Action::Launch,
        ServiceState::spec_exited(s, exit, oneshot).1 != Action::Launch,
        ServiceState::spec_backoff_elapsed(s).1 != Action::Launch,
        ServiceState::spec_cmd_stop(s, stop_signal).1 != Action::Launch,
        ServiceState::spec_cmd_kill(s, signal).1 != Action::Launch,
        ServiceState::spec_try_spawn(s, deps_ok).0.pid == s.pid,
        ServiceState::spec_probe_passed(s).0.pid == s.pid,
        ServiceState::spec_probe_failed(s, stop_signal).0.pid == s.pid,
        ServiceState::spec_cmd_start(s).pid == s.pid,
        ServiceState::spec_cmd_monitor(s).pid == s.pid,
        ServiceState::spec_cmd_stop(s, stop_signal).0.pid == s.pid,
        ServiceState::spec_cmd_kill(s, signal).0.pid == s.pid,
        ServiceState::spec_backoff_elapsed(s).0.pid == s.pid,
{
}

/// Every single supervision step preserves well-formedness.
pub proof fn lemma_step_preserves_wf(s: ServiceState, ev: Event)
    requires
        s.wf(),
    ensures
        ServiceState::spec_step(s, ev).0.wf(),
{
}

/// Well-formedness is an invariant of the whole state machine: whatever
/// sequence of control commands and process events arrives, a service
/// that starts well formed stays well formed — in particular, a pid is
/// only ever recorded in the two states in which a process can be live.
pub proof fn lemma_run_preserves_wf(s: ServiceState, evs: Seq<Event>)
    requires
        s.wf(),
    ensures
        ServiceState::spec_run(s, evs).wf(),
    decreases evs.len(),
{
    if evs.len() > 0 {
        lemma_step_preserves_wf(s, evs[0]);
        lemma_run_preserves_wf(ServiceState::spec_step(s, evs[0]).0, evs.skip(1));
    }
}

/// `Spawning` is entered through the spawn step alone: every other step
/// leaves a service in `Spawning` only if it already was there. The spawn
/// step itself fires only with the target up and its dependency check
/// passed, so a service never enters `Spawning` before every name it
/// waits on is running or successful.
pub proof fn lemma_spawning_needs_ready_deps(
    s: ServiceState,
    deps_ok: bool,
    pid: u64,
    has_probe: bool,
    stop_signal: u32,
    signal: u32,
    exit: ExitStatus,
    oneshot: bool,
)
    ensures
        ServiceState::spec_try_spawn(s, deps_ok).0.state == State::Spawning && s.state
            != State::Spawning ==> deps_ok && s.target == Target::Up,
        ServiceState::spec_launched(s, pid, has_probe, stop_signal).0.state == State::Spawning
            ==> s.state == State::Spawning,
        ServiceState::spec_launch_failed(s).0.state == State::Spawning ==> s.state
            == State::Spawning,
        ServiceState::spec_probe_passed(s).0.state == State::Spawning ==> s.state
            == State::Spawning,
        ServiceState::spec_probe_failed(s, stop_signal).0.state == State::Spawning ==> s.state
            == State::Spawning,
        ServiceState::spec_exited(s, exit, oneshot).0.state == State::Spawning ==> s.state
            == State::Spawning,
        ServiceState::spec_backoff_elapsed(s).0.state == State::Spawning ==> s.state
            == State::Spawning,
        ServiceState::spec_cmd_start(s).state == State::Spawning ==> s.state == State::Spawning,
        ServiceState::spec_cmd_monitor(s).state == State::Spawning ==> s.state == State::Spawning,
        ServiceState::spec_cmd_stop(s, stop_signal).0.state == State::Spawning ==> s.state
            == State::Spawning,
        ServiceState::spec_cmd_kill(s, signal).0.state == State::Spawning ==> s.state
            == State::Spawning,
{
}

/// An explicit kill followed by the death of the process leaves the state
/// `Killed` — monitored or not — and schedules no restart.
pub proof fn lemma_kill_bypasses_restart(
    s: ServiceState,
    signal: u32,
    exit: ExitStatus,
    oneshot: bool,
)
    requires
        s.wf(),
        s.live(),
    ensures
        ({
            let (s1, a1) = ServiceState::spec_cmd_kill(s, signal);
            let (s2, a2) = ServiceState::spec_exited(s1, exit, oneshot);
            &&& a1 == Action::SendSignal(signal)
            &&& s2.state == State::Killed
            &&& !s2.live()
            &&& a2 == Action::Idle
        }),
{
}

/// The monitor step changes nothing the second time.
pub proof fn lemma_cmd_monitor_idempotent(s: ServiceState)
    ensures
        ServiceState::spec_cmd_monitor(ServiceState::spec_cmd_monitor(s))
            == ServiceState::spec_cmd_monitor(s),
{
}

/// Issuing the same monitor command twice leaves the registry exactly as
/// issuing it once does.
pub proof fn lemma_monitor_idempotent(
    defs: Seq<ServiceDef>,
    states: Seq<ServiceState>,
    def: ServiceDef,
)
    requires
        defs.len() == states.len(),
        unique_names(defs),
    ensures
        ({
            let once = spec_monitor(defs, states, def);
            spec_monitor(once.0, once.1, def) == once
        }),
{
    let once = spec_monitor(defs, states, def);
    if crate::registry::has_svc(defs, def.name@) {
        let i = crate::registry::idx_svc(defs, def.name@);
        lemma_cmd_monitor_idempotent(states[i]);
        assert(once.1[i] == ServiceState::spec_cmd_monitor(states[i]));
        assert(once.1.update(i, ServiceState::spec_cmd_monitor(once.1[i])) =~= once.1);
    } else {
        let n = defs.len() as int;
        let defs1 = defs.push(def);
        assert(defs1[n] == def);
        assert(crate::registry::has_svc(defs1, def.name@));
        assert forall|p: int, q: int|
            #![trigger defs1[p], defs1[q]]
            0 <= p < q < defs1.len() implies defs1[p].name@ != defs1[q].name@ by {
            if q < n {
                assert(defs1[p] == defs[p]);
                assert(defs1[q] == defs[q]);
            } else {
                assert(defs1[p] == defs[p]);
                assert(defs1[q] == def);
                assert(!(0 <= p < defs.len() && defs[p].name@ == def.name@));
            }
        }
        crate::registry::lemma_idx_unique(defs1, def.name@, n);
        lemma_cmd_monitor_idempotent(ServiceState::spec_initial());
        assert(once.1[n] == ServiceState::spec_cmd_monitor(ServiceState::spec_initial()));
        assert(once.1.update(n, ServiceState::spec_cmd_monitor(once.1[n])) =~= once.1);
    }
}

/// A crash loop never restarts faster than the minimum backoff, and each
/// failure schedules a strictly longer delay than the one before it until
/// the delay reaches its cap. The steps between two failures — the delay
/// elapsing, re-entering `Blocked`, spawning again — leave the stored
/// delay untouched.
pub proof fn lemma_backoff_increases(s: ServiceState)
    requires
        s.wf(),
        s.is_monitored,
        s.target == Target::Up,
        s.state == State::Spawning,
        s.pid is None,
    ensures
        ({
            let (s1, a1) = ServiceState::spec_launch_failed(s);
            let (s2, a2) = ServiceState::spec_backoff_elapsed(s1);
            let (s3, a3) = ServiceState::spec_try_spawn(s2, true);
            let (s4, a4) = ServiceState::spec_launch_failed(s3);
            &&& a1 == Action::ScheduleRestart(s.backoff_ms)
            &&& s2.state == State::Blocked
            &&& s3.state == State::Spawning && a3 == Action::Launch
            &&& a4 == Action::ScheduleRestart(s1.backoff_ms)
            &&& MIN_BACKOFF_MS <= s.backoff_ms
            &&& (s.backoff_ms < MAX_BACKOFF_MS ==> s1.backoff_ms > s.backoff_ms)
            &&& s1.backoff_ms <= MAX_BACKOFF_MS
        }),
{
}

/// A stop command to a running service sends the configured stop signal
/// exactly once — a second stop sends nothing — and once the process dies
/// the state is `Stopped`, with no restart scheduled even for a monitored
/// service.
pub proof fn lemma_stop_signals_once(
    s: ServiceState,
    stop_signal: u32,
    exit: ExitStatus,
    oneshot: bool,
)
    requires
        s.wf(),
        s.state == State::Running,
        s.live(),
        s.pending == Pending::Nothing,
    ensures
        ({
            let (s1, a1) = ServiceState::spec_cmd_stop(s, stop_signal);
            let (s1b, a1b) = ServiceState::spec_cmd_stop(s1, stop_signal);
            let (s2, a2) = ServiceState::spec_exited(s1, exit, oneshot);
            &&& a1 == Action::SendSignal(stop_signal)
            &&& a1b == Action::Idle
            &&& s2.state == State::Stopped
            &&& s2.target == Target::Down
            &&& a2 == Action::Idle
        }),
{
}

} // verus!
