use zinit::codec::{encode_command, err_name, parse_command, parse_signal, state_name, DEFAULT_STOP_SIGNAL};
use zinit::strutil::{absolute, split_space};
use zinit::types::Command;
use zinit::dep::dependency_errors;
use zinit::registry::Registry;
use zinit::types::{Action, ErrKind, ServiceDef, State};

fn def(name: &str, after: &[&str]) -> ServiceDef {
    ServiceDef {
        name: name.to_string(),
        command: "/bin/true".to_string(),
        test: None,
        oneshot: false,
        after: after.iter().map(|s| s.to_string()).collect(),
        signal: DEFAULT_STOP_SIGNAL,
        env: Vec::new(),
        workdir: String::new(),
        log: String::new(),
    }
}

#[test]
fn dependency_cycle_flags_both_services() {
    let defs = vec![def("e", &["f"]), def("f", &["e"]), def("g", &[])];
    let errs = dependency_errors(&defs);
    assert_eq!(errs[0], Some(ErrKind::DependencyCycle));
    assert_eq!(errs[1], Some(ErrKind::DependencyCycle));
    assert_eq!(errs[2], None);
    let mut reg = Registry::new();
    assert!(reg.monitor(def("g", &[])).is_ok());
    assert_eq!(reg.try_spawn("g"), Ok(Action::Launch));
}

#[test]
fn self_cycle_flagged() {
    let defs = vec![def("a", &["a"])];
    let errs = dependency_errors(&defs);
    assert_eq!(errs[0], Some(ErrKind::DependencyCycle));
}

#[test]
fn dangling_dependency_flagged() {
    let defs = vec![def("h", &["missing"]), def("k", &[])];
    let errs = dependency_errors(&defs);
    assert_eq!(errs[0], Some(ErrKind::DependencyCycle));
    assert_eq!(errs[1], None);
}

#[test]
fn service_behind_cycle_flagged() {
    let defs = vec![def("e", &["f"]), def("f", &["e"]), def("x", &["e"]), def("y", &["x"])];
    let errs = dependency_errors(&defs);
    assert_eq!(errs[2], Some(ErrKind::DependencyCycle));
    assert_eq!(errs[3], Some(ErrKind::DependencyCycle));
}

#[test]
fn long_chain_unflagged() {
    let defs = vec![
        def("s0", &[]),
        def("s1", &["s0"]),
        def("s2", &["s1"]),
        def("s3", &["s2"]),
        def("s4", &["s3"]),
    ];
    let errs = dependency_errors(&defs);
    assert!(errs.iter().all(|e| e.is_none()));
}

#[test]
fn register_duplicate_name_fails() {
    let mut reg = Registry::new();
    assert_eq!(reg.register(def("a", &[])), Ok(()));
    assert_eq!(reg.register(def("a", &[])), Err(ErrKind::AlreadyRunning));
    assert_eq!(reg.len(), 1);
}

#[test]
fn unknown_name_not_found() {
    let mut reg = Registry::new();
    assert_eq!(reg.status("nope"), Err(ErrKind::NotFound));
    assert_eq!(reg.start("nope"), Err(ErrKind::NotFound));
    assert_eq!(reg.stop("nope"), Err(ErrKind::NotFound));
    assert_eq!(reg.forget("nope"), Err(ErrKind::NotFound));
    assert_eq!(reg.kill("nope", "SIGTERM"), Err(ErrKind::NotFound));
}

#[test]
fn list_keeps_insertion_order() {
    let mut reg = Registry::new();
    assert!(reg.monitor(def("b", &[])).is_ok());
    assert!(reg.monitor(def("a", &[])).is_ok());
    assert!(reg.monitor(def("c", &[])).is_ok());
    let listed = reg.list();
    let names: Vec<&str> = listed.iter().map(|p| p.0.as_str()).collect();
    assert_eq!(names, vec!["b", "a", "c"]);
    assert!(listed.iter().all(|p| p.1 == State::Blocked));
}

#[test]
fn parse_signal_known_names() {
    assert_eq!(parse_signal("SIGHUP"), Ok(1));
    assert_eq!(parse_signal("SIGINT"), Ok(2));
    assert_eq!(parse_signal("SIGQUIT"), Ok(3));
    assert_eq!(parse_signal("SIGKILL"), Ok(9));
    assert_eq!(parse_signal("SIGUSR1"), Ok(10));
    assert_eq!(parse_signal("SIGUSR2"), Ok(12));
    assert_eq!(parse_signal("SIGTERM"), Ok(15));
    assert_eq!(parse_signal("SIGCONT"), Ok(18));
    assert_eq!(parse_signal("SIGSTOP"), Ok(19));
}

#[test]
fn parse_signal_rejects_unknown_names() {
    assert_eq!(parse_signal("SIGFOO"), Err(ErrKind::BadSignalName));
    assert_eq!(parse_signal("sigterm"), Err(ErrKind::BadSignalName));
    assert_eq!(parse_signal(""), Err(ErrKind::BadSignalName));
    assert_eq!(parse_signal("SIGTERM "), Err(ErrKind::BadSignalName));
}

#[test]
fn kill_with_bad_signal_name() {
    let mut reg = Registry::new();
    assert!(reg.monitor(def("a", &[])).is_ok());
    assert_eq!(reg.kill("a", "HUP"), Err(ErrKind::BadSignalName));
}

#[test]
fn state_names() {
    assert_eq!(state_name(State::Blocked), "Blocked");
    assert_eq!(state_name(State::Spawning), "Spawning");
    assert_eq!(state_name(State::Running), "Running");
    assert_eq!(state_name(State::Success), "Success");
    assert_eq!(state_name(State::Error), "Error");
    assert_eq!(state_name(State::Stopped), "Stopped");
    assert_eq!(state_name(State::Killed), "Killed");
}

#[test]
fn parse_command_forms() {
    assert_eq!(parse_command("list"), Ok(Command::List));
    assert_eq!(parse_command("logs"), Ok(Command::Logs));
    assert_eq!(parse_command("status redis"), Ok(Command::Status("redis".to_string())));
    assert_eq!(parse_command("start redis"), Ok(Command::Start("redis".to_string())));
    assert_eq!(parse_command("stop redis"), Ok(Command::Stop("redis".to_string())));
    assert_eq!(parse_command("monitor redis"), Ok(Command::Monitor("redis".to_string())));
    assert_eq!(parse_command("forget redis"), Ok(Command::Forget("redis".to_string())));
    assert_eq!(
        parse_command("kill redis SIGTERM"),
        Ok(Command::Kill("redis".to_string(), "SIGTERM".to_string()))
    );
}

#[test]
fn parse_command_rejects_malformed_lines() {
    assert_eq!(parse_command(""), Err(ErrKind::ProtocolError));
    assert_eq!(parse_command("bogus"), Err(ErrKind::ProtocolError));
    assert_eq!(parse_command("status"), Err(ErrKind::ProtocolError));
    assert_eq!(parse_command("status a b"), Err(ErrKind::ProtocolError));
    assert_eq!(parse_command("kill redis"), Err(ErrKind::ProtocolError));
    assert_eq!(parse_command("kill redis SIGTERM extra"), Err(ErrKind::ProtocolError));
    assert_eq!(parse_command("list extra"), Err(ErrKind::ProtocolError));
}

#[test]
fn command_round_trip() {
    let cmds = vec![
        Command::List,
        Command::Logs,
        Command::Status("a".to_string()),
        Command::Start("b".to_string()),
        Command::Stop("c".to_string()),
        Command::Monitor("d".to_string()),
        Command::Forget("e".to_string()),
        Command::Kill("f".to_string(), "SIGKILL".to_string()),
    ];
    for c in cmds {
        let wire = encode_command(&c);
        assert_eq!(parse_command(wire.as_str()), Ok(c));
    }
}

#[test]
fn split_space_forms() {
    assert_eq!(split_space("a b c"), ("a", Some("b c")));
    assert_eq!(split_space("abc"), ("abc", None));
    assert_eq!(split_space(" x"), ("", Some("x")));
    assert_eq!(split_space("x "), ("x", Some("")));
    assert_eq!(split_space(""), ("", None));
}

#[test]
fn absolute_paths() {
    assert_eq!(absolute("/etc/zinit", "/var/run/sock"), "/var/run/sock");
    assert_eq!(absolute("/etc/zinit", "units"), "/etc/zinit/units");
    assert_eq!(absolute("/", ""), "//");
}

#[test]
fn err_names() {
    assert_eq!(err_name(ErrKind::NotFound), "NotFound");
    assert_eq!(err_name(ErrKind::AlreadyRunning), "AlreadyRunning");
    assert_eq!(err_name(ErrKind::StillRunning), "StillRunning");
    assert_eq!(err_name(ErrKind::DependencyCycle), "DependencyCycle");
    assert_eq!(err_name(ErrKind::LaunchFailed), "LaunchFailed");
    assert_eq!(err_name(ErrKind::BadSignalName), "BadSignalName");
    assert_eq!(err_name(ErrKind::ProtocolError), "ProtocolError");
}
