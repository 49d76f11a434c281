//! Plain data shared by the whole library: lifecycle states, control
//! targets, exit statuses, the actions a transition asks of the caller,
//! the control-surface error kinds, and the immutable service definition.

use vstd::prelude::*;

verus! {

/// Lifecycle state of one supervised service.
#[derive(Clone, Copy, PartialEq, Eq, Structural, Debug)]
pub enum State {
    /// Waiting on dependencies (or on a permanently failed prerequisite).
    Blocked,
    /// A launch is in progress, or the readiness probe has not passed yet.
    Spawning,
    /// The process is up and, if a probe is configured, the probe passed.
    Running,
    /// A oneshot service exited with code zero: the terminal goal.
    Success,
    /// The launch failed or the process died unexpectedly.
    Error,
    /// The configured stop signal was sent on a down command and the
    /// process has exited.
    Stopped,
    /// An explicit kill terminated the process.
    Killed,
}

/// Desired state as last set by a control command, independent of the
/// observed lifecycle state.
#[derive(Clone, Copy, PartialEq, Eq, Structural, Debug)]
pub enum Target {
    Up,
    Down,
}

/// How the last observed run of the process ended.
#[derive(Clone, Copy, PartialEq, Eq, Structural, Debug)]
pub enum ExitStatus {
    /// The process exited on its own with this code.
    Code(i32),
    /// The process was terminated by this signal.
    Signal(u32),
}

/// Why the supervisor expects the current live process to die, if it does.
#[derive(Clone, Copy, PartialEq, Eq, Structural, Debug)]
pub enum Pending {
    /// No signal of ours is outstanding: a death now is unexpected.
    Nothing,
    /// The configured stop signal was sent for a down command.
    Stop,
    /// An explicit kill signal was sent.
    Kill,
    /// The readiness probe failed and the process is being torn down.
    Probe,
}

/// What the embedding program must do after a transition. The library never
/// touches the operating system itself; it hands one of these back.
#[derive(Clone, Copy, PartialEq, Eq, Structural, Debug)]
pub enum Action {
    /// Nothing to do.
    Idle,
    /// Start the service's process and report back with a launch event.
    Launch,
    /// Run the readiness probe and report back with a probe event.
    RunProbe,
    /// Send this signal to the service's live process.
    SendSignal(u32),
    /// Deliver a backoff-elapsed event after this many milliseconds.
    ScheduleRestart(u64),
}

/// Error kinds of the control surface.
#[derive(Clone, Copy, PartialEq, Eq, Structural, Debug)]
pub enum ErrKind {
    /// No service of that name is registered.
    NotFound,
    /// The name is already registered (or the service is already up).
    AlreadyRunning,
    /// A forget was refused because a process is still live.
    StillRunning,
    /// The service sits on, or behind, a dependency cycle or a dangling
    /// dependency, and can never launch.
    DependencyCycle,
    /// The operating system refused to start the process.
    LaunchFailed,
    /// A kill command named a signal this library does not know.
    BadSignalName,
    /// A control request could not be decoded.
    ProtocolError,
}

/// A decoded control request, one per client connection.
#[derive(Clone, PartialEq, Eq, Debug)]
pub enum Command {
    /// Every service with its current state.
    List,
    /// The runtime state snapshot of one service.
    Status(String),
    /// Aim a service up.
    Start(String),
    /// Aim a service down and stop its process gracefully.
    Stop(String),
    /// Register a service, or re-arm a known one, with restart-on-failure.
    Monitor(String),
    /// Drop a service that has no live process.
    Forget(String),
    /// Send a signal, given by name, to a service's process.
    Kill(String, String),
    /// Stream log lines until the client disconnects.
    Logs,
}

/// Immutable description of one managed unit, as loaded from configuration
/// or supplied with a monitor command.
#[derive(Clone, Debug)]
pub struct ServiceDef {
    /// Unique identifier across the registry.
    pub name: String,
    /// Command line that starts the process.
    pub command: String,
    /// Optional readiness probe: must succeed before the service counts as
    /// running.
    pub test: Option<String>,
    /// True when a clean exit is the terminal goal rather than a failure.
    pub oneshot: bool,
    /// Names of services that must be running or successful before this one
    /// may launch.
    pub after: Vec<String>,
    /// Signal number to send for a graceful stop.
    pub signal: u32,
    /// Environment entries passed through to the launcher.
    pub env: Vec<(String, String)>,
    /// Working directory passed through to the launcher.
    pub workdir: String,
    /// Log sink name passed through to the launcher.
    pub log: String,
}

} // verus!
