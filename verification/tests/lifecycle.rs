use zinit::registry::Registry;
use zinit::supervisor::ServiceState;
use zinit::types::{Action, ErrKind, ExitStatus, ServiceDef, State};

fn def(name: &str, after: &[&str], oneshot: bool) -> ServiceDef {
    ServiceDef {
        name: name.to_string(),
        command: "/bin/true".to_string(),
        test: None,
        oneshot,
        after: after.iter().map(|s| s.to_string()).collect(),
        signal: 15,
        env: Vec::new(),
        workdir: String::new(),
        log: String::new(),
    }
}

fn def_with_probe(name: &str) -> ServiceDef {
    let mut d = def(name, &[], false);
    d.test = Some("/bin/check".to_string());
    d
}

#[test]
fn no_deps_reaches_running() {
    let mut reg = Registry::new();
    assert!(reg.monitor(def("a", &[], false)).is_ok());
    assert_eq!(reg.try_spawn("a"), Ok(Action::Launch));
    assert_eq!(reg.on_launched("a", 42), Ok(Action::Idle));
    let st = reg.status("a").unwrap();
    assert_eq!(st.state, State::Running);
    assert_eq!(st.pid, Some(42));
}

#[test]
fn failed_launch_reaches_error() {
    let mut reg = Registry::new();
    assert!(reg.monitor(def("a", &[], false)).is_ok());
    assert_eq!(reg.try_spawn("a"), Ok(Action::Launch));
    assert_eq!(reg.on_launch_failed("a"), Ok(Action::ScheduleRestart(250)));
    let st = reg.status("a").unwrap();
    assert_eq!(st.state, State::Error);
    assert_eq!(st.pid, None);
    assert_eq!(st.failures, 1);
}

#[test]
fn spawn_waits_for_dependency() {
    let mut reg = Registry::new();
    assert!(reg.monitor(def("a", &[], false)).is_ok());
    assert!(reg.monitor(def("b", &["a"], false)).is_ok());
    assert_eq!(reg.try_spawn("b"), Ok(Action::Idle));
    assert_eq!(reg.status("b").unwrap().state, State::Blocked);
    assert_eq!(reg.try_spawn("a"), Ok(Action::Launch));
    assert_eq!(reg.on_launched("a", 7), Ok(Action::Idle));
    assert_eq!(reg.try_spawn("b"), Ok(Action::Launch));
}

#[test]
fn at_most_one_launch() {
    let mut reg = Registry::new();
    assert!(reg.monitor(def("a", &[], false)).is_ok());
    assert_eq!(reg.try_spawn("a"), Ok(Action::Launch));
    assert_eq!(reg.try_spawn("a"), Ok(Action::Idle));
    assert_eq!(reg.on_launched("a", 10), Ok(Action::Idle));
    assert_eq!(reg.try_spawn("a"), Ok(Action::Idle));
    assert_eq!(reg.on_launched("a", 11), Ok(Action::Idle));
    assert_eq!(reg.status("a").unwrap().pid, Some(10));
}

#[test]
fn forget_refused_while_live() {
    let mut reg = Registry::new();
    assert!(reg.monitor(def("a", &[], false)).is_ok());
    assert_eq!(reg.try_spawn("a"), Ok(Action::Launch));
    assert_eq!(reg.on_launched("a", 10), Ok(Action::Idle));
    assert_eq!(reg.forget("a"), Err(ErrKind::StillRunning));
    assert_eq!(reg.list().len(), 1);
    assert_eq!(reg.stop("a"), Ok(Action::SendSignal(15)));
    assert_eq!(reg.on_exited("a", ExitStatus::Signal(15)), Ok(Action::Idle));
    assert_eq!(reg.forget("a"), Ok(()));
    assert_eq!(reg.list().len(), 0);
    assert_eq!(reg.status("a"), Err(ErrKind::NotFound));
}

#[test]
fn kill_bypasses_restart() {
    let mut reg = Registry::new();
    assert!(reg.monitor(def("a", &[], false)).is_ok());
    assert_eq!(reg.try_spawn("a"), Ok(Action::Launch));
    assert_eq!(reg.on_launched("a", 10), Ok(Action::Idle));
    assert_eq!(reg.kill("a", "SIGKILL"), Ok(Action::SendSignal(9)));
    assert_eq!(reg.on_exited("a", ExitStatus::Signal(9)), Ok(Action::Idle));
    let st = reg.status("a").unwrap();
    assert_eq!(st.state, State::Killed);
    assert!(st.is_monitored);
    assert_eq!(st.pid, None);
}

#[test]
fn monitor_twice_same_effect() {
    let mut once = Registry::new();
    assert!(once.monitor(def("a", &[], false)).is_ok());
    let mut twice = Registry::new();
    assert!(twice.monitor(def("a", &[], false)).is_ok());
    assert!(twice.monitor(def("a", &[], false)).is_ok());
    assert_eq!(once.status("a").unwrap(), twice.status("a").unwrap());
    assert_eq!(once.list(), twice.list());
}

#[test]
fn oneshot_chain() {
    let mut reg = Registry::new();
    assert!(reg.monitor(def("a", &[], true)).is_ok());
    assert!(reg.monitor(def("b", &["a"], false)).is_ok());
    assert_eq!(reg.try_spawn("b"), Ok(Action::Idle));
    assert_eq!(reg.status("b").unwrap().state, State::Blocked);
    assert_eq!(reg.try_spawn("a"), Ok(Action::Launch));
    assert_eq!(reg.on_launched("a", 5), Ok(Action::Idle));
    assert_eq!(reg.status("b").unwrap().state, State::Blocked);
    assert_eq!(reg.on_exited("a", ExitStatus::Code(0)), Ok(Action::Idle));
    assert_eq!(reg.status("a").unwrap().state, State::Success);
    assert_eq!(reg.try_spawn("b"), Ok(Action::Launch));
    assert_eq!(reg.on_launched("b", 6), Ok(Action::Idle));
    assert_eq!(reg.status("b").unwrap().state, State::Running);
}

#[test]
fn crash_loop_backoff_strictly_increases() {
    let mut reg = Registry::new();
    assert!(reg.monitor(def("c", &[], false)).is_ok());
    let mut delays: Vec<u64> = Vec::new();
    for _ in 0..10 {
        assert_eq!(reg.try_spawn("c"), Ok(Action::Launch));
        match reg.on_launch_failed("c").unwrap() {
            Action::ScheduleRestart(d) => delays.push(d),
            a => panic!("expected a restart to be scheduled, got {:?}", a),
        }
        assert_eq!(reg.on_backoff_elapsed("c"), Ok(Action::Idle));
        assert_eq!(reg.status("c").unwrap().state, State::Blocked);
    }
    assert_eq!(delays[0], 250);
    for w in delays.windows(2) {
        assert!(w[0] >= 250);
        assert!(w[1] >= w[0]);
        if w[0] < 30000 {
            assert!(w[1] > w[0]);
        }
    }
    assert_eq!(*delays.last().unwrap(), 30000);
}

#[test]
fn backoff_formula() {
    assert_eq!(ServiceState::next_backoff(250), 500);
    assert_eq!(ServiceState::next_backoff(500), 1000);
    assert_eq!(ServiceState::next_backoff(14999), 29998);
    assert_eq!(ServiceState::next_backoff(15000), 30000);
    assert_eq!(ServiceState::next_backoff(30000), 30000);
}

#[test]
fn stop_signals_exactly_once() {
    let mut reg = Registry::new();
    assert!(reg.monitor(def("d", &[], false)).is_ok());
    assert_eq!(reg.try_spawn("d"), Ok(Action::Launch));
    assert_eq!(reg.on_launched("d", 9), Ok(Action::Idle));
    assert_eq!(reg.stop("d"), Ok(Action::SendSignal(15)));
    assert_eq!(reg.stop("d"), Ok(Action::Idle));
    assert_eq!(reg.on_exited("d", ExitStatus::Signal(15)), Ok(Action::Idle));
    let st = reg.status("d").unwrap();
    assert_eq!(st.state, State::Stopped);
    assert!(st.is_monitored);
    assert_eq!(st.last_exit, Some(ExitStatus::Signal(15)));
    assert_eq!(reg.try_spawn("d"), Ok(Action::Idle));
}

#[test]
fn start_rearms_stopped_service() {
    let mut reg = Registry::new();
    assert!(reg.monitor(def("d", &[], false)).is_ok());
    assert_eq!(reg.stop("d"), Ok(Action::Idle));
    assert_eq!(reg.status("d").unwrap().state, State::Stopped);
    assert_eq!(reg.try_spawn("d"), Ok(Action::Idle));
    assert_eq!(reg.start("d"), Ok(()));
    assert_eq!(reg.status("d").unwrap().state, State::Blocked);
    assert_eq!(reg.try_spawn("d"), Ok(Action::Launch));
}

#[test]
fn probe_gates_running() {
    let mut reg = Registry::new();
    assert!(reg.monitor(def_with_probe("p")).is_ok());
    assert_eq!(reg.try_spawn("p"), Ok(Action::Launch));
    assert_eq!(reg.on_launched("p", 3), Ok(Action::RunProbe));
    assert_eq!(reg.status("p").unwrap().state, State::Spawning);
    assert_eq!(reg.on_probe_passed("p"), Ok(Action::Idle));
    assert_eq!(reg.status("p").unwrap().state, State::Running);
}

#[test]
fn failed_probe_tears_down() {
    let mut reg = Registry::new();
    assert!(reg.monitor(def_with_probe("p")).is_ok());
    assert_eq!(reg.try_spawn("p"), Ok(Action::Launch));
    assert_eq!(reg.on_launched("p", 3), Ok(Action::RunProbe));
    assert_eq!(reg.on_probe_failed("p"), Ok(Action::SendSignal(15)));
    assert_eq!(
        reg.on_exited("p", ExitStatus::Signal(15)),
        Ok(Action::ScheduleRestart(250))
    );
    assert_eq!(reg.status("p").unwrap().state, State::Error);
}

#[test]
fn launch_landing_after_stop_is_stopped() {
    let mut reg = Registry::new();
    assert!(reg.monitor(def("a", &[], false)).is_ok());
    assert_eq!(reg.try_spawn("a"), Ok(Action::Launch));
    assert_eq!(reg.stop("a"), Ok(Action::Idle));
    assert_eq!(reg.on_launched("a", 4), Ok(Action::SendSignal(15)));
    assert_eq!(reg.on_exited("a", ExitStatus::Signal(15)), Ok(Action::Idle));
    assert_eq!(reg.status("a").unwrap().state, State::Stopped);
}

#[test]
fn unexpected_clean_exit_of_longrunning_is_error() {
    let mut reg = Registry::new();
    assert!(reg.monitor(def("a", &[], false)).is_ok());
    assert_eq!(reg.try_spawn("a"), Ok(Action::Launch));
    assert_eq!(reg.on_launched("a", 4), Ok(Action::Idle));
    assert_eq!(
        reg.on_exited("a", ExitStatus::Code(0)),
        Ok(Action::ScheduleRestart(250))
    );
    assert_eq!(reg.status("a").unwrap().state, State::Error);
}

#[test]
fn down_command_cancels_restart() {
    let mut reg = Registry::new();
    assert!(reg.monitor(def("a", &[], false)).is_ok());
    assert_eq!(reg.try_spawn("a"), Ok(Action::Launch));
    assert_eq!(reg.on_launch_failed("a"), Ok(Action::ScheduleRestart(250)));
    assert_eq!(reg.stop("a"), Ok(Action::Idle));
    assert_eq!(reg.on_backoff_elapsed("a"), Ok(Action::Idle));
    assert_eq!(reg.status("a").unwrap().state, State::Error);
    assert_eq!(reg.try_spawn("a"), Ok(Action::Idle));
}

#[test]
fn stuck_dependency_is_surfaced() {
    let mut reg = Registry::new();
    // c is registered but never monitored: a failure leaves it in Error for
    // good, and d's wait on it can then never end by itself
    assert_eq!(reg.register(def("c", &[], false)), Ok(()));
    assert!(reg.monitor(def("d", &["c"], false)).is_ok());
    assert_eq!(reg.dep_unsatisfiable("d"), Ok(false));
    assert_eq!(reg.try_spawn("c"), Ok(Action::Launch));
    assert_eq!(reg.on_launch_failed("c"), Ok(Action::Idle));
    let snap = reg.status("c").unwrap();
    assert_eq!(snap.state, State::Error);
    assert!(!snap.is_monitored);
    assert_eq!(reg.dep_unsatisfiable("d"), Ok(true));
    assert_eq!(reg.try_spawn("d"), Ok(Action::Idle));
    assert_eq!(reg.dep_unsatisfiable("nope"), Err(ErrKind::NotFound));
    // monitoring c again re-arms it and clears the stuck wait
    assert!(reg.monitor(def("c", &[], false)).is_ok());
    assert_eq!(reg.status("c").unwrap().state, State::Blocked);
    assert_eq!(reg.dep_unsatisfiable("d"), Ok(false));
}

#[test]
fn missing_dependency_is_surfaced() {
    let mut reg = Registry::new();
    assert!(reg.monitor(def("b", &["ghost"], false)).is_ok());
    assert_eq!(reg.dep_unsatisfiable("b"), Ok(true));
    assert_eq!(reg.try_spawn("b"), Ok(Action::Idle));
    assert_eq!(reg.status("b").unwrap().state, State::Blocked);
}

#[test]
fn monitor_rearms_killed_service() {
    let mut reg = Registry::new();
    assert!(reg.monitor(def("a", &[], false)).is_ok());
    assert_eq!(reg.try_spawn("a"), Ok(Action::Launch));
    assert_eq!(reg.on_launched("a", 2), Ok(Action::Idle));
    assert_eq!(reg.kill("a", "SIGKILL"), Ok(Action::SendSignal(9)));
    assert_eq!(reg.on_exited("a", ExitStatus::Signal(9)), Ok(Action::Idle));
    assert_eq!(reg.status("a").unwrap().state, State::Killed);
    assert!(reg.monitor(def("a", &[], false)).is_ok());
    assert_eq!(reg.status("a").unwrap().state, State::Blocked);
}
