//! The per-service state machine. Every transition is a pure step: it takes
//! the current runtime state (and, where needed, a few facts about the
//! definition or the event) and yields the next state together with the
//! action the caller must perform. Each executable method is proved equal to
//! its specification-level step function, so laws about sequences of
//! transitions can be stated and proved once, over the step functions.

use vstd::prelude::*;

use crate::types::{Action, ExitStatus, Pending, State, Target};
use crate::{MAX_BACKOFF_MS, MIN_BACKOFF_MS};

verus! {

/// Mutable runtime state exclusively owned by one service's supervisor.
/// Snapshots of it are what `status` and `list` report.
#[derive(Clone, Copy, PartialEq, Eq, Debug)]
pub struct ServiceState {
    /// Current lifecycle state.
    pub state: State,
    /// Process id, present exactly while a process is live.
    pub pid: Option<u64>,
    /// Desired state as last set by a control command.
    pub target: Target,
    /// Whether automatic restart-on-failure is active.
    pub is_monitored: bool,
    /// Last observed exit, for diagnostics.
    pub last_exit: Option<ExitStatus>,
    /// Why the supervisor expects the live process to die, if it does.
    pub pending: Pending,
    /// Delay before the next automatic restart attempt.
    pub backoff_ms: u64,
    /// Count of consecutive failures, for observability.
    pub failures: u64,
}

/// Any one supervision input — a control command or a process event —
/// together with the facts about the definition the step consults. Laws
/// quantified over this type hold of every sequence of commands and
/// events.
#[derive(Clone, Copy, PartialEq, Eq, Structural, Debug)]
pub enum Event {
    /// The spawn check, with the dependency verdict.
    TrySpawn(bool),
    /// A successful launch: pid, whether a probe is configured, and the
    /// stop signal.
    Launched(u64, bool, u32),
    /// A launch the operating system refused.
    LaunchFailed,
    /// The readiness probe passed.
    ProbePassed,
    /// The readiness probe exhausted its retries; the stop signal follows.
    ProbeFailed(u32),
    /// The process died, with its exit and whether the service is oneshot.
    Exited(ExitStatus, bool),
    /// A scheduled restart delay elapsed.
    BackoffElapsed,
    /// A start command.
    Start,
    /// A stop command, with the stop signal.
    Stop(u32),
    /// A monitor command.
    Monitor,
    /// A kill command, with the resolved signal.
    Kill(u32),
}

impl ServiceState {
    /// A process is live exactly while a pid is recorded.
    pub open spec fn live(self) -> bool {
        self.pid is Some
    }

    /// Well-formedness: a pid is recorded only in the two states in which a
    /// process can be live, and the restart delay stays within its bounds.
    pub open spec fn wf(self) -> bool {
        &&& self.live() ==> (self.state == State::Spawning || self.state == State::Running)
        &&& MIN_BACKOFF_MS <= self.backoff_ms <= MAX_BACKOFF_MS
    }

    /// The state a freshly registered service starts in: blocked, aimed up,
    /// with no process and no history. Automatic restart stays off until a
    /// monitor command asks for it.
    pub open spec fn spec_initial() -> ServiceState {
        ServiceState {
            state: State::Blocked,
            pid: None,
            target: Target::Up,
            is_monitored: false,
            last_exit: None,
            pending: Pending::Nothing,
            backoff_ms: MIN_BACKOFF_MS,
            failures: 0,
        }
    }

    /// The restart delay that follows `b`: doubled, capped, never below the
    /// minimum. Strictly larger than `b` whenever `b` is below the cap.
    pub open spec fn spec_next_backoff(b: u64) -> u64 {
        if b >= MAX_BACKOFF_MS / 2 {
            MAX_BACKOFF_MS
        } else {
            (2 * b) as u64
        }
    }

    /// Step: may the service move from `Blocked` to `Spawning`? Only with
    /// the target up and every dependency ready; the action `Launch` asks
    /// the caller to start the process.
    pub open spec fn spec_try_spawn(s: ServiceState, deps_ok: bool) -> (ServiceState, Action) {
        if s.state == State::Blocked && s.target == Target::Up && deps_ok {
            (ServiceState { state: State::Spawning, pending: Pending::Nothing, ..s }, Action::Launch)
        } else {
            (s, Action::Idle)
        }
    }

    /// The common failure step: record the error, drop the pid, and — only
    /// while monitored with the target up — schedule a restart after the
    /// current backoff, growing the backoff for the next time.
    pub open spec fn spec_fail(s: ServiceState) -> (ServiceState, Action) {
        let failures = if s.failures == u64::MAX { s.failures } else { (s.failures + 1) as u64 };
        if s.is_monitored && s.target == Target::Up {
            (
                ServiceState {
                    state: State::Error,
                    pid: None,
                    pending: Pending::Nothing,
                    failures,
                    backoff_ms: Self::spec_next_backoff(s.backoff_ms),
                    ..s
                },
                Action::ScheduleRestart(s.backoff_ms),
            )
        } else {
            (
                ServiceState { state: State::Error, pid: None, pending: Pending::Nothing, failures, ..s },
                Action::Idle,
            )
        }
    }

    /// Step on a successful launch: record the pid. If the target went down
    /// meanwhile, ask for a graceful stop at once; if a probe is configured,
    /// stay `Spawning` and ask for the probe; otherwise the service is
    /// `Running` and the failure streak and backoff reset.
    pub open spec fn spec_launched(s: ServiceState, pid: u64, has_probe: bool, stop_signal: u32) -> (
        ServiceState,
        Action,
    ) {
        if s.state == State::Spawning && s.pid is None {
            if s.target == Target::Down {
                (
                    ServiceState { pid: Some(pid), pending: Pending::Stop, ..s },
                    Action::SendSignal(stop_signal),
                )
            } else if has_probe {
                (ServiceState { pid: Some(pid), ..s }, Action::RunProbe)
            } else {
                (
                    ServiceState {
                        state: State::Running,
                        pid: Some(pid),
                        backoff_ms: MIN_BACKOFF_MS,
                        failures: 0,
                        ..s
                    },
                    Action::Idle,
                )
            }
        } else {
            (s, Action::Idle)
        }
    }

    /// Step on a failed launch: the failure path, if a launch was pending.
    pub open spec fn spec_launch_failed(s: ServiceState) -> (ServiceState, Action) {
        if s.state == State::Spawning && s.pid is None {
            Self::spec_fail(s)
        } else {
            (s, Action::Idle)
        }
    }

    /// Step on a passed readiness probe: the service is `Running`; the
    /// failure streak and backoff reset.
    pub open spec fn spec_probe_passed(s: ServiceState) -> (ServiceState, Action) {
        if s.state == State::Spawning && s.pid is Some {
            (
                ServiceState { state: State::Running, backoff_ms: MIN_BACKOFF_MS, failures: 0, ..s },
                Action::Idle,
            )
        } else {
            (s, Action::Idle)
        }
    }

    /// Step on a readiness probe that exhausted its retries: tear the
    /// process down with the stop signal; its exit will record the error.
    pub open spec fn spec_probe_failed(s: ServiceState, stop_signal: u32) -> (ServiceState, Action) {
        if s.state == State::Spawning && s.pid is Some && s.pending == Pending::Nothing {
            (ServiceState { pending: Pending::Probe, ..s }, Action::SendSignal(stop_signal))
        } else {
            (s, Action::Idle)
        }
    }

    /// Step on the death of the live process. An outstanding kill wins over
    /// everything: the state is `Killed` and no restart is scheduled. A
    /// stop we requested yields `Stopped`. A clean exit of a oneshot
    /// service while `Running` is `Success`. Everything else — a failed
    /// probe, a non-zero exit, a foreign signal, a clean exit of a service
    /// meant to keep running — takes the failure path.
    pub open spec fn spec_exited(s: ServiceState, exit: ExitStatus, oneshot: bool) -> (
        ServiceState,
        Action,
    ) {
        if s.pid is Some {
            let base = ServiceState { pid: None, last_exit: Some(exit), pending: Pending::Nothing, ..s };
            match s.pending {
                Pending::Kill => (ServiceState { state: State::Killed, ..base }, Action::Idle),
                Pending::Stop => (ServiceState { state: State::Stopped, ..base }, Action::Idle),
                Pending::Probe => Self::spec_fail(base),
                Pending::Nothing => {
                    if s.state == State::Running && exit == ExitStatus::Code(0i32) && oneshot {
                        (ServiceState { state: State::Success, ..base }, Action::Idle)
                    } else {
                        Self::spec_fail(base)
                    }
                },
            }
        } else {
            (s, Action::Idle)
        }
    }

    /// Step when a scheduled restart delay has elapsed: re-enter `Blocked`
    /// only if the service still failed, is still monitored and is still
    /// aimed up — a down command meanwhile cancels the restart.
    pub open spec fn spec_backoff_elapsed(s: ServiceState) -> (ServiceState, Action) {
        if s.state == State::Error && s.is_monitored && s.target == Target::Up && s.pid is None {
            (ServiceState { state: State::Blocked, ..s }, Action::Idle)
        } else {
            (s, Action::Idle)
        }
    }

    /// Step on a start command: aim the target up, withdraw a pending stop,
    /// and re-enter `Blocked` from any settled state without a process.
    pub open spec fn spec_cmd_start(s: ServiceState) -> ServiceState {
        let s1 = ServiceState {
            target: Target::Up,
            pending: if s.pending == Pending::Stop { Pending::Nothing } else { s.pending },
            ..s
        };
        if !s.live() && (s.state == State::Error || s.state == State::Stopped || s.state
            == State::Killed || s.state == State::Success) {
            ServiceState { state: State::Blocked, ..s1 }
        } else {
            s1
        }
    }

    /// Step on a stop command: aim the target down; send the configured stop
    /// signal if — and only if — a process is live and no signal of ours is
    /// already outstanding; a blocked service settles as `Stopped`.
    pub open spec fn spec_cmd_stop(s: ServiceState, stop_signal: u32) -> (ServiceState, Action) {
        let s1 = ServiceState { target: Target::Down, ..s };
        if s.live() && s.pending == Pending::Nothing {
            (ServiceState { pending: Pending::Stop, ..s1 }, Action::SendSignal(stop_signal))
        } else if !s.live() && s.state == State::Blocked {
            (ServiceState { state: State::Stopped, ..s1 }, Action::Idle)
        } else {
            (s1, Action::Idle)
        }
    }

    /// Step on a monitor command: switch automatic restart on, aim the
    /// target up, and re-enter `Blocked` from any settled state without a
    /// process, exactly as a start command would.
    pub open spec fn spec_cmd_monitor(s: ServiceState) -> ServiceState {
        ServiceState { is_monitored: true, ..Self::spec_cmd_start(s) }
    }

    /// Step on a kill command: send the given signal to the live process
    /// and remember that its death is ours. Without a live process there is
    /// nothing to signal.
    pub open spec fn spec_cmd_kill(s: ServiceState, signal: u32) -> (ServiceState, Action) {
        if s.live() {
            (ServiceState { pending: Pending::Kill, ..s }, Action::SendSignal(signal))
        } else {
            (s, Action::Idle)
        }
    }

    /// The step any supervision input induces: the transition relation of
    /// the whole state machine in one place.
    pub open spec fn spec_step(s: ServiceState, ev: Event) -> (ServiceState, Action) {
        match ev {
            Event::TrySpawn(deps_ok) => Self::spec_try_spawn(s, deps_ok),
            Event::Launched(pid, has_probe, stop_signal) => Self::spec_launched(
                s,
                pid,
                has_probe,
                stop_signal,
            ),
            Event::LaunchFailed => Self::spec_launch_failed(s),
            Event::ProbePassed => Self::spec_probe_passed(s),
            Event::ProbeFailed(stop_signal) => Self::spec_probe_failed(s, stop_signal),
            Event::Exited(exit, oneshot) => Self::spec_exited(s, exit, oneshot),
            Event::BackoffElapsed => Self::spec_backoff_elapsed(s),
            Event::Start => (Self::spec_cmd_start(s), Action::Idle),
            Event::Stop(stop_signal) => Self::spec_cmd_stop(s, stop_signal),
            Event::Monitor => (Self::spec_cmd_monitor(s), Action::Idle),
            Event::Kill(signal) => Self::spec_cmd_kill(s, signal),
        }
    }

    /// The state after a whole sequence of supervision inputs.
    pub open spec fn spec_run(s: ServiceState, evs: Seq<Event>) -> ServiceState
        decreases evs.len(),
    {
        if evs.len() == 0 {
            s
        } else {
            Self::spec_run(Self::spec_step(s, evs[0]).0, evs.skip(1))
        }
    }

    /// The initial runtime state of a freshly registered service.
    pub fn initial() -> (s: ServiceState)
        ensures
            s == Self::spec_initial(),
            s.wf(),
    {
        ServiceState {
            state: State::Blocked,
            pid: None,
            target: Target::Up,
            is_monitored: false,
            last_exit: None,
            pending: Pending::Nothing,
            backoff_ms: MIN_BACKOFF_MS,
            failures: 0,
        }
    }

    /// Move from `Blocked` to `Spawning` if the target is up and the
    /// caller found every dependency ready.
    pub fn try_spawn(&mut self, deps_ok: bool) -> (a: Action)
        ensures
            (*final(self), a) == Self::spec_try_spawn(*old(self), deps_ok),
            old(self).wf() ==> final(self).wf(),
    {
        if self.state == State::Blocked && self.target == Target::Up && deps_ok {
            self.state = State::Spawning;
            self.pending = Pending::Nothing;
            Action::Launch
        } else {
            Action::Idle
        }
    }

    /// Record a successful launch.
    pub fn on_launched(&mut self, pid: u64, has_probe: bool, stop_signal: u32) -> (a: Action)
        ensures
            (*final(self), a) == Self::spec_launched(*old(self), pid, has_probe, stop_signal),
            old(self).wf() ==> final(self).wf(),
    {
        if self.state == State::Spawning && self.pid.is_none() {
            self.pid = Some(pid);
            if self.target == Target::Down {
                self.pending = Pending::Stop;
                Action::SendSignal(stop_signal)
            } else if has_probe {
                Action::RunProbe
            } else {
                self.state = State::Running;
                self.backoff_ms = MIN_BACKOFF_MS;
                self.failures = 0;
                Action::Idle
            }
        } else {
            Action::Idle
        }
    }

    /// Record a launch the operating system refused.
    pub fn on_launch_failed(&mut self) -> (a: Action)
        ensures
            (*final(self), a) == Self::spec_launch_failed(*old(self)),
            old(self).wf() ==> final(self).wf(),
    {
        if self.state == State::Spawning && self.pid.is_none() {
            self.fail()
        } else {
            Action::Idle
        }
    }

    /// Record a passed readiness probe.
    pub fn on_probe_passed(&mut self) -> (a: Action)
        ensures
            (*final(self), a) == Self::spec_probe_passed(*old(self)),
            old(self).wf() ==> final(self).wf(),
    {
        if self.state == State::Spawning && self.pid.is_some() {
            self.state = State::Running;
            self.backoff_ms = MIN_BACKOFF_MS;
            self.failures = 0;
        }
        Action::Idle
    }

    /// Record a readiness probe that exhausted its retries.
    pub fn on_probe_failed(&mut self, stop_signal: u32) -> (a: Action)
        ensures
            (*final(self), a) == Self::spec_probe_failed(*old(self), stop_signal),
            old(self).wf() ==> final(self).wf(),
    {
        if self.state == State::Spawning && self.pid.is_some() && self.pending == Pending::Nothing {
            self.pending = Pending::Probe;
            Action::SendSignal(stop_signal)
        } else {
            Action::Idle
        }
    }

    /// Record the death of the live process.
    pub fn on_exited(&mut self, exit: ExitStatus, oneshot: bool) -> (a: Action)
        ensures
            (*final(self), a) == Self::spec_exited(*old(self), exit, oneshot),
            old(self).wf() ==> final(self).wf(),
    {
        if self.pid.is_some() {
            let was = self.pending;
            let was_running = self.state == State::Running;
            self.pid = None;
            self.last_exit = Some(exit);
            self.pending = Pending::Nothing;
            match was {
                Pending::Kill => {
                    self.state = State::Killed;
                    Action::Idle
                },
                Pending::Stop => {
                    self.state = State::Stopped;
                    Action::Idle
                },
                Pending::Probe => self.fail(),
                Pending::Nothing => {
                    if was_running && exit == ExitStatus::Code(0i32) && oneshot {
                        self.state = State::Success;
                        Action::Idle
                    } else {
                        self.fail()
                    }
                },
            }
        } else {
            Action::Idle
        }
    }

    /// Record that a scheduled restart delay has elapsed.
    pub fn on_backoff_elapsed(&mut self) -> (a: Action)
        ensures
            (*final(self), a) == Self::spec_backoff_elapsed(*old(self)),
            old(self).wf() ==> final(self).wf(),
    {
        if self.state == State::Error && self.is_monitored && self.target == Target::Up
            && self.pid.is_none() {
            self.state = State::Blocked;
        }
        Action::Idle
    }

    /// Apply a start command.
    pub fn cmd_start(&mut self)
        ensures
            *final(self) == Self::spec_cmd_start(*old(self)),
            old(self).wf() ==> final(self).wf(),
    {
        self.target = Target::Up;
        if self.pending == Pending::Stop {
            self.pending = Pending::Nothing;
        }
        if self.pid.is_none() && (self.state == State::Error || self.state == State::Stopped
            || self.state == State::Killed || self.state == State::Success) {
            self.state = State::Blocked;
        }
    }

    /// Apply a stop command.
    pub fn cmd_stop(&mut self, stop_signal: u32) -> (a: Action)
        ensures
            (*final(self), a) == Self::spec_cmd_stop(*old(self), stop_signal),
            old(self).wf() ==> final(self).wf(),
    {
        let live = self.pid.is_some();
        let quiet = self.pending == Pending::Nothing;
        let blocked = self.state == State::Blocked;
        self.target = Target::Down;
        if live && quiet {
            self.pending = Pending::Stop;
            Action::SendSignal(stop_signal)
        } else if !live && blocked {
            self.state = State::Stopped;
            Action::Idle
        } else {
            Action::Idle
        }
    }

    /// Apply a monitor command.
    pub fn cmd_monitor(&mut self)
        ensures
            *final(self) == Self::spec_cmd_monitor(*old(self)),
            old(self).wf() ==> final(self).wf(),
    {
        self.is_monitored = true;
        self.cmd_start();
    }

    /// Apply a kill command with an already resolved signal number.
    pub fn cmd_kill(&mut self, signal: u32) -> (a: Action)
        ensures
            (*final(self), a) == Self::spec_cmd_kill(*old(self), signal),
            old(self).wf() ==> final(self).wf(),
    {
        if self.pid.is_some() {
            self.pending = Pending::Kill;
            Action::SendSignal(signal)
        } else {
            Action::Idle
        }
    }

    /// The failure path shared by failed launches, failed probes and
    /// unexpected exits.
    fn fail(&mut self) -> (a: Action)
        requires
            old(self).pid is None,
        ensures
            (*final(self), a) == Self::spec_fail(*old(self)),
            old(self).wf() ==> final(self).wf(),
    {
        if self.failures < u64::MAX {
            self.failures = self.failures + 1;
        }
        self.state = State::Error;
        self.pending = Pending::Nothing;
        if self.is_monitored && self.target == Target::Up {
            let delay = self.backoff_ms;
            self.backoff_ms = Self::next_backoff(self.backoff_ms);
            Action::ScheduleRestart(delay)
        } else {
            Action::Idle
        }
    }

    /// The restart delay that follows `b`.
    pub fn next_backoff(b: u64) -> (r: u64)
        ensures
            r == Self::spec_next_backoff(b),
            MIN_BACKOFF_MS <= b ==> MIN_BACKOFF_MS <= r <= MAX_BACKOFF_MS,
            MIN_BACKOFF_MS <= b < MAX_BACKOFF_MS ==> r > b,
    {
        if b >= MAX_BACKOFF_MS / 2 {
            MAX_BACKOFF_MS
        } else {
            2 * b
        }
    }
}

} // verus!
