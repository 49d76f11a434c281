//! The registry: the single source of truth mapping service names to their
//! definitions and runtime states. Control commands and supervision events
//! both go through it; it looks the service up, applies the pure state
//! machine step, stores the new state and hands the caller the action to
//! perform. Names are unique, so there is at most one supervisor — and at
//! most one live process — per name.

use vstd::prelude::*;

use crate::strutil::str_eq;
use crate::supervisor::ServiceState;
use crate::types::{Action, ErrKind, ServiceDef, State};

verus! {

/// Some definition in `defs` carries this name.
pub open spec fn has_svc(defs: Seq<ServiceDef>, name: Seq<char>) -> bool {
    exists|i: int| 0 <= i < defs.len() && (#[trigger] defs[i]).name@ == name
}

/// The index of the definition carrying this name (meaningful only under
/// `has_svc` and unique names).
pub open spec fn idx_svc(defs: Seq<ServiceDef>, name: Seq<char>) -> int {
    choose|i: int| 0 <= i < defs.len() && (#[trigger] defs[i]).name@ == name
}

/// No two definitions carry the same name.
pub open spec fn unique_names(defs: Seq<ServiceDef>) -> bool {
    forall|i: int, j: int|
        #![trigger defs[i], defs[j]]
        0 <= i < j < defs.len() ==> defs[i].name@ != defs[j].name@
}

/// A dependency is ready once its service is running or has succeeded.
pub open spec fn dep_ready(st: State) -> bool {
    st == State::Running || st == State::Success
}

/// The named dependency exists and is ready.
pub open spec fn dep_ready_named(
    defs: Seq<ServiceDef>,
    states: Seq<ServiceState>,
    name: Seq<char>,
) -> bool {
    has_svc(defs, name) && dep_ready(states[idx_svc(defs, name)].state)
}

/// Every name the `i`-th definition waits on is ready.
pub open spec fn all_deps_ready(
    defs: Seq<ServiceDef>,
    states: Seq<ServiceState>,
    i: int,
) -> bool {
    forall|k: int|
        0 <= k < defs[i].after@.len() ==> dep_ready_named(
            defs,
            states,
            (#[trigger] defs[i].after@[k])@,
        )
}

/// A dependency is permanently failed when it sits in `Error` without
/// automatic restart: a service waiting on it can then never become ready
/// on its own.
pub open spec fn dep_stuck(st: ServiceState) -> bool {
    st.state == State::Error && !st.is_monitored
}

/// Some name the `i`-th definition waits on is missing or permanently
/// failed, so the wait cannot end without a further control command.
pub open spec fn some_dep_unsatisfiable(
    defs: Seq<ServiceDef>,
    states: Seq<ServiceState>,
    i: int,
) -> bool {
    exists|k: int|
        0 <= k < defs[i].after@.len() && {
            let n = (#[trigger] defs[i].after@[k])@;
            !has_svc(defs, n) || dep_stuck(states[idx_svc(defs, n)])
        }
}

/// Under unique names, an index whose definition carries `name` is the
/// index `idx_svc` denotes.
pub proof fn lemma_idx_unique(defs: Seq<ServiceDef>, name: Seq<char>, i: int)
    requires
        unique_names(defs),
        0 <= i < defs.len(),
        defs[i].name@ == name,
    ensures
        has_svc(defs, name),
        idx_svc(defs, name) == i,
{
    assert(has_svc(defs, name));
    let j = idx_svc(defs, name);
    if j < i {
        assert(defs[j].name@ != defs[i].name@);
    } else if i < j {
        assert(defs[i].name@ != defs[j].name@);
    }
}

/// Find the index of the definition carrying `name`.
pub fn find_def(defs: &Vec<ServiceDef>, name: &str) -> (r: Option<usize>)
    ensures
        match r {
            Some(i) => i < defs@.len() && defs@[i as int].name@ == name@,
            None => !has_svc(defs@, name@),
        },
{
    let mut i: usize = 0;
    while i < defs.len()
        invariant
            i <= defs@.len(),
            forall|j: int| 0 <= j < i ==> (#[trigger] defs@[j]).name@ != name@,
        decreases defs@.len() - i,
    {
        if str_eq(defs[i].name.as_str(), name) {
            return Some(i);
        }
        i = i + 1;
    }
    None
}

/// Check whether every dependency of the `i`-th definition is ready.
pub fn deps_ready(defs: &Vec<ServiceDef>, states: &Vec<ServiceState>, i: usize) -> (b: bool)
    requires
        unique_names(defs@),
        defs@.len() == states@.len(),
        i < defs@.len(),
    ensures
        b == all_deps_ready(defs@, states@, i as int),
{
    let mut k: usize = 0;
    let n = defs[i].after.len();
    while k < n
        invariant
            unique_names(defs@),
            defs@.len() == states@.len(),
            i < defs@.len(),
            n == defs@[i as int].after@.len(),
            k <= n,
            forall|m: int|
                0 <= m < k ==> dep_ready_named(defs@, states@, (#[trigger] defs@[i as int].after@[m])@),
        decreases n - k,
    {
        let dep = &defs[i].after[k];
        match find_def(defs, dep.as_str()) {
            Some(j) => {
                proof {
                    lemma_idx_unique(defs@, dep@, j as int);
                }
                let st = states[j].state;
                if !(st == State::Running || st == State::Success) {
                    assert(!dep_ready_named(defs@, states@, defs@[i as int].after@[k as int]@));
                    return false;
                }
            },
            None => {
                assert(!dep_ready_named(defs@, states@, defs@[i as int].after@[k as int]@));
                return false;
            },
        }
        k = k + 1;
    }
    true
}

/// The registry proper: one definition and one runtime state per service,
/// kept in insertion order, with unique names.
pub struct Registry {
    pub defs: Vec<ServiceDef>,
    pub states: Vec<ServiceState>,
}

/// The registry after a monitor command: a new name is inserted fresh; a
/// known name has the monitor step applied to its state.
pub open spec fn spec_monitor(
    defs: Seq<ServiceDef>,
    states: Seq<ServiceState>,
    def: ServiceDef,
) -> (Seq<ServiceDef>, Seq<ServiceState>) {
    if has_svc(defs, def.name@) {
        let i = idx_svc(defs, def.name@);
        (defs, states.update(i, ServiceState::spec_cmd_monitor(states[i])))
    } else {
        (
            defs.push(def),
            states.push(ServiceState::spec_cmd_monitor(ServiceState::spec_initial())),
        )
    }
}

impl Registry {
    /// One runtime state per definition, names unique, every state
    /// well-formed.
    pub open spec fn wf(self) -> bool {
        &&& self.defs@.len() == self.states@.len()
        &&& unique_names(self.defs@)
        &&& forall|i: int| 0 <= i < self.states@.len() ==> (#[trigger] self.states@[i]).wf()
    }

    /// A service of this name is registered.
    pub open spec fn has_name(self, name: Seq<char>) -> bool {
        has_svc(self.defs@, name)
    }

    /// The index of the service of this name.
    pub open spec fn idx(self, name: Seq<char>) -> int {
        idx_svc(self.defs@, name)
    }

    /// An empty registry.
    pub fn new() -> (r: Registry)
        ensures
            r.wf(),
            r.defs@.len() == 0,
    {
        Registry { defs: Vec::new(), states: Vec::new() }
    }

    /// The number of registered services.
    pub fn len(&self) -> (n: usize)
        ensures
            n == self.defs@.len(),
    {
        self.defs.len()
    }

    /// Add a service. Fails, changing nothing, when the name is taken.
    pub fn register(&mut self, def: ServiceDef) -> (r: Result<(), ErrKind>)
        requires
            old(self).wf(),
        ensures
            final(self).wf(),
            old(self).has_name(def.name@) ==> r == Err::<(), ErrKind>(ErrKind::AlreadyRunning)
                && *final(self) == *old(self),
            !old(self).has_name(def.name@) ==> r == Ok::<(), ErrKind>(()) && final(self).defs@
                == old(self).defs@.push(def) && final(self).states@ == old(self).states@.push(
                ServiceState::spec_initial(),
            ),
    {
        match find_def(&self.defs, def.name.as_str()) {
            Some(_) => {
                proof {
                    assert(has_svc(self.defs@, def.name@));
                }
                Err(ErrKind::AlreadyRunning)
            },
            None => {
                self.defs.push(def);
                self.states.push(ServiceState::initial());
                Ok(())
            },
        }
    }

    /// Apply a monitor command: register the service if it is new, switch
    /// automatic restart on, aim it up, and re-enter the launch path from
    /// any settled state. Issuing the same monitor command twice leaves
    /// the registry exactly as issuing it once does.
    pub fn monitor(&mut self, def: ServiceDef) -> (r: Result<(), ErrKind>)
        requires
            old(self).wf(),
        ensures
            final(self).wf(),
            r == Ok::<(), ErrKind>(()),
            (final(self).defs@, final(self).states@) == spec_monitor(
                old(self).defs@,
                old(self).states@,
                def,
            ),
    {
        match find_def(&self.defs, def.name.as_str()) {
            Some(i) => {
                proof {
                    lemma_idx_unique(self.defs@, def.name@, i as int);
                }
                let mut s = self.states[i];
                s.cmd_monitor();
                self.states[i] = s;
                Ok(())
            },
            None => {
                self.defs.push(def);
                let mut s = ServiceState::initial();
                s.cmd_monitor();
                self.states.push(s);
                Ok(())
            },
        }
    }

    /// A snapshot of a service's runtime state.
    pub fn status(&self, name: &str) -> (r: Result<ServiceState, ErrKind>)
        requires
            self.wf(),
        ensures
            self.has_name(name@) ==> r == Ok::<ServiceState, ErrKind>(
                self.states@[self.idx(name@)],
            ),
            !self.has_name(name@) ==> r == Err::<ServiceState, ErrKind>(ErrKind::NotFound),
    {
        match find_def(&self.defs, name) {
            Some(i) => {
                proof {
                    lemma_idx_unique(self.defs@, name@, i as int);
                }
                Ok(self.states[i])
            },
            None => Err(ErrKind::NotFound),
        }
    }

    /// Every service with its current state, in insertion order.
    pub fn list(&self) -> (r: Vec<(String, State)>)
        requires
            self.wf(),
        ensures
            r@.len() == self.defs@.len(),
            forall|i: int|
                0 <= i < r@.len() ==> (#[trigger] r@[i]).0@ == self.defs@[i].name@ && r@[i].1
                    == self.states@[i].state,
    {
        let mut out: Vec<(String, State)> = Vec::new();
        let mut i: usize = 0;
        while i < self.defs.len()
            invariant
                self.wf(),
                i <= self.defs@.len(),
                out@.len() == i,
                forall|j: int|
                    0 <= j < i ==> (#[trigger] out@[j]).0@ == self.defs@[j].name@ && out@[j].1
                        == self.states@[j].state,
            decreases self.defs@.len() - i,
        {
            out.push((self.defs[i].name.clone(), self.states[i].state));
            i = i + 1;
        }
        out
    }

    /// Surface a wait that cannot end: whether some dependency of the
    /// service is missing or permanently failed, so that `Blocked` would
    /// last forever without a further control command.
    pub fn dep_unsatisfiable(&self, name: &str) -> (r: Result<bool, ErrKind>)
        requires
            self.wf(),
        ensures
            !self.has_name(name@) ==> r == Err::<bool, ErrKind>(ErrKind::NotFound),
            self.has_name(name@) ==> r == Ok::<bool, ErrKind>(
                some_dep_unsatisfiable(self.defs@, self.states@, self.idx(name@)),
            ),
    {
        let i = match find_def(&self.defs, name) {
            None => {
                return Err(ErrKind::NotFound);
            },
            Some(i) => i,
        };
        proof {
            lemma_idx_unique(self.defs@, name@, i as int);
        }
        let n = self.defs[i].after.len();
        let mut k: usize = 0;
        while k < n
            invariant
                self.wf(),
                i < self.defs@.len(),
                has_svc(self.defs@, name@),
                idx_svc(self.defs@, name@) == i as int,
                n == self.defs@[i as int].after@.len(),
                k <= n,
                forall|m: int|
                    0 <= m < k ==> {
                        let nm = (#[trigger] self.defs@[i as int].after@[m])@;
                        has_svc(self.defs@, nm) && !dep_stuck(
                            self.states@[idx_svc(self.defs@, nm)],
                        )
                    },
            decreases n - k,
        {
            let dep = &self.defs[i].after[k];
            match find_def(&self.defs, dep.as_str()) {
                Some(j) => {
                    proof {
                        lemma_idx_unique(self.defs@, dep@, j as int);
                    }
                    let st = self.states[j];
                    if st.state == State::Error && !st.is_monitored {
                        proof {
                            assert(dep_stuck(self.states@[idx_svc(self.defs@, dep@)]));
                            assert((self.defs@[i as int].after@[k as int])@ == dep@);
                            assert(some_dep_unsatisfiable(self.defs@, self.states@, i as int));
                        }
                        return Ok(true);
                    }
                },
                None => {
                    proof {
                        assert((self.defs@[i as int].after@[k as int])@ == dep@);
                        assert(some_dep_unsatisfiable(self.defs@, self.states@, i as int));
                    }
                    return Ok(true);
                },
            }
            k = k + 1;
        }
        Ok(false)
    }

    /// Remove a service. Refused while a process is live for it; once
    /// removed the name is gone from `list` and `status`.
    pub fn forget(&mut self, name: &str) -> (r: Result<(), ErrKind>)
        requires
            old(self).wf(),
        ensures
            final(self).wf(),
            r is Ok <==> old(self).has_name(name@) && !old(self).states@[old(self).idx(
                name@,
            )].live(),
            !old(self).has_name(name@) ==> r == Err::<(), ErrKind>(ErrKind::NotFound) && *final(self) == *old(self),
            old(self).has_name(name@) && old(self).states@[old(self).idx(name@)].live() ==> r
                == Err::<(), ErrKind>(ErrKind::StillRunning) && *final(self) == *old(self),
            r is Ok ==> final(self).defs@ == old(self).defs@.remove(old(self).idx(name@))
                && final(self).states@ == old(self).states@.remove(old(self).idx(name@))
                && !final(self).has_name(name@),
    {
        let i = match find_def(&self.defs, name) {
            None => {
                return Err(ErrKind::NotFound);
            },
            Some(i) => i,
        };
        proof {
            lemma_idx_unique(self.defs@, name@, i as int);
        }
        if self.states[i].pid.is_some() {
            return Err(ErrKind::StillRunning);
        }
        let ghost old_defs = self.defs@;
        let ghost old_states = self.states@;
        self.defs.remove(i);
        self.states.remove(i);
        proof {
            old_defs.remove_ensures(i as int);
            old_states.remove_ensures(i as int);
            assert forall|p: int| 0 <= p < self.defs@.len() implies (#[trigger] self.defs@[p]).name@
                != name@ by {
                if p < i {
                    assert(self.defs@[p] == old_defs[p]);
                    if p != i {
                        assert(old_defs[p].name@ != old_defs[i as int].name@);
                    }
                } else {
                    assert(self.defs@[p] == old_defs[p + 1]);
                    assert(old_defs[i as int].name@ != old_defs[p + 1].name@);
                }
            }
            assert forall|p: int, q: int|
                #![trigger self.defs@[p], self.defs@[q]]
                0 <= p < q < self.defs@.len() implies self.defs@[p].name@
                != self.defs@[q].name@ by {
                let p0: int = if p < i { p } else { p + 1 };
                let q0: int = if q < i { q } else { q + 1 };
                assert(self.defs@[p] == old_defs[p0]);
                assert(self.defs@[q] == old_defs[q0]);
                assert(old_defs[p0].name@ != old_defs[q0].name@);
            }
            assert forall|p: int| 0 <= p < self.states@.len() implies (#[trigger] self.states@[p]).wf() by {
                if p < i {
                    assert(self.states@[p] == old_states[p]);
                } else {
                    assert(self.states@[p] == old_states[p + 1]);
                }
            }
        }
        Ok(())
    }

    /// Apply a start command: aim the service up and re-enter the launch
    /// path from any settled state.
    pub fn start(&mut self, name: &str) -> (r: Result<(), ErrKind>)
        requires
            old(self).wf(),
        ensures
            final(self).wf(),
            !old(self).has_name(name@) ==> r == Err::<(), ErrKind>(ErrKind::NotFound) && *final(self) == *old(self),
            old(self).has_name(name@) ==> r == Ok::<(), ErrKind>(()) && final(self).defs@ == old(self).defs@ && final(self).states@ == old(self).states@.update(
                old(self).idx(name@),
                ServiceState::spec_cmd_start(old(self).states@[old(self).idx(name@)]),
            ),
    {
        let i = match find_def(&self.defs, name) {
            None => {
                return Err(ErrKind::NotFound);
            },
            Some(i) => i,
        };
        proof {
            lemma_idx_unique(self.defs@, name@, i as int);
        }
        let mut s = self.states[i];
        s.cmd_start();
        self.states[i] = s;
        Ok(())
    }

    /// Apply a stop command: aim the service down; if a process is live and
    /// no signal of ours is outstanding, the returned action sends the
    /// definition's stop signal — exactly once.
    pub fn stop(&mut self, name: &str) -> (r: Result<Action, ErrKind>)
        requires
            old(self).wf(),
        ensures
            final(self).wf(),
            !old(self).has_name(name@) ==> r == Err::<Action, ErrKind>(ErrKind::NotFound) && *final(self) == *old(self),
            old(self).has_name(name@) ==> ({
                let i = old(self).idx(name@);
                let step = ServiceState::spec_cmd_stop(
                    old(self).states@[i],
                    old(self).defs@[i].signal,
                );
                r == Ok::<Action, ErrKind>(step.1) && final(self).defs@ == old(self).defs@
                    && final(self).states@ == old(self).states@.update(i, step.0)
            }),
    {
        let i = match find_def(&self.defs, name) {
            None => {
                return Err(ErrKind::NotFound);
            },
            Some(i) => i,
        };
        proof {
            lemma_idx_unique(self.defs@, name@, i as int);
        }
        let mut s = self.states[i];
        let a = s.cmd_stop(self.defs[i].signal);
        self.states[i] = s;
        Ok(a)
    }

    /// Apply a kill command: resolve the signal name and send that signal
    /// to the service's live process.
    pub fn kill(&mut self, name: &str, signal: &str) -> (r: Result<Action, ErrKind>)
        requires
            old(self).wf(),
        ensures
            final(self).wf(),
            crate::codec::spec_parse_signal(signal@) is Err ==> r == Err::<Action, ErrKind>(
                ErrKind::BadSignalName,
            ) && *final(self) == *old(self),
            crate::codec::spec_parse_signal(signal@) is Ok && !old(self).has_name(name@) ==> r
                == Err::<Action, ErrKind>(ErrKind::NotFound) && *final(self) == *old(self),
            crate::codec::spec_parse_signal(signal@) is Ok && old(self).has_name(name@) ==> ({
                let sig = crate::codec::spec_parse_signal(signal@)->Ok_0;
                let i = old(self).idx(name@);
                let step = ServiceState::spec_cmd_kill(old(self).states@[i], sig);
                r == Ok::<Action, ErrKind>(step.1) && final(self).defs@ == old(self).defs@
                    && final(self).states@ == old(self).states@.update(i, step.0)
            }),
    {
        let sig = match crate::codec::parse_signal(signal) {
            Err(_) => {
                return Err(ErrKind::BadSignalName);
            },
            Ok(sig) => sig,
        };
        let i = match find_def(&self.defs, name) {
            None => {
                return Err(ErrKind::NotFound);
            },
            Some(i) => i,
        };
        proof {
            lemma_idx_unique(self.defs@, name@, i as int);
        }
        let mut s = self.states[i];
        let a = s.cmd_kill(sig);
        self.states[i] = s;
        Ok(a)
    }

    /// Ask whether the service may launch now. The `Launch` action is
    /// granted only from `Blocked` with the target up and every name it
    /// waits on running or successful — never while a process is live.
    pub fn try_spawn(&mut self, name: &str) -> (r: Result<Action, ErrKind>)
        requires
            old(self).wf(),
        ensures
            final(self).wf(),
            !old(self).has_name(name@) ==> r == Err::<Action, ErrKind>(ErrKind::NotFound) && *final(self) == *old(self),
            old(self).has_name(name@) ==> ({
                let i = old(self).idx(name@);
                let ok = all_deps_ready(old(self).defs@, old(self).states@, i);
                let step = ServiceState::spec_try_spawn(old(self).states@[i], ok);
                r == Ok::<Action, ErrKind>(step.1) && final(self).defs@ == old(self).defs@
                    && final(self).states@ == old(self).states@.update(i, step.0)
            }),
            r == Ok::<Action, ErrKind>(Action::Launch) ==> old(self).has_name(name@)
                && all_deps_ready(old(self).defs@, old(self).states@, old(self).idx(name@)) && old(self).states@[old(self).idx(name@)].pid is None,
    {
        let i = match find_def(&self.defs, name) {
            None => {
                return Err(ErrKind::NotFound);
            },
            Some(i) => i,
        };
        proof {
            lemma_idx_unique(self.defs@, name@, i as int);
        }
        let ok = deps_ready(&self.defs, &self.states, i);
        let mut s = self.states[i];
        let a = s.try_spawn(ok);
        self.states[i] = s;
        Ok(a)
    }

    /// Record a successful launch of the service's process.
    pub fn on_launched(&mut self, name: &str, pid: u64) -> (r: Result<Action, ErrKind>)
        requires
            old(self).wf(),
        ensures
            final(self).wf(),
            !old(self).has_name(name@) ==> r == Err::<Action, ErrKind>(ErrKind::NotFound) && *final(self) == *old(self),
            old(self).has_name(name@) ==> ({
                let i = old(self).idx(name@);
                let step = ServiceState::spec_launched(
                    old(self).states@[i],
                    pid,
                    old(self).defs@[i].test is Some,
                    old(self).defs@[i].signal,
                );
                r == Ok::<Action, ErrKind>(step.1) && final(self).defs@ == old(self).defs@
                    && final(self).states@ == old(self).states@.update(i, step.0)
            }),
    {
        let i = match find_def(&self.defs, name) {
            None => {
                return Err(ErrKind::NotFound);
            },
            Some(i) => i,
        };
        proof {
            lemma_idx_unique(self.defs@, name@, i as int);
        }
        let has_probe = self.defs[i].test.is_some();
        let mut s = self.states[i];
        let a = s.on_launched(pid, has_probe, self.defs[i].signal);
        self.states[i] = s;
        Ok(a)
    }

    /// Record a launch the operating system refused.
    pub fn on_launch_failed(&mut self, name: &str) -> (r: Result<Action, ErrKind>)
        requires
            old(self).wf(),
        ensures
            final(self).wf(),
            !old(self).has_name(name@) ==> r == Err::<Action, ErrKind>(ErrKind::NotFound) && *final(self) == *old(self),
            old(self).has_name(name@) ==> ({
                let i = old(self).idx(name@);
                let step = ServiceState::spec_launch_failed(old(self).states@[i]);
                r == Ok::<Action, ErrKind>(step.1) && final(self).defs@ == old(self).defs@
                    && final(self).states@ == old(self).states@.update(i, step.0)
            }),
    {
        let i = match find_def(&self.defs, name) {
            None => {
                return Err(ErrKind::NotFound);
            },
            Some(i) => i,
        };
        proof {
            lemma_idx_unique(self.defs@, name@, i as int);
        }
        let mut s = self.states[i];
        let a = s.on_launch_failed();
        self.states[i] = s;
        Ok(a)
    }

    /// Record a passed readiness probe.
    pub fn on_probe_passed(&mut self, name: &str) -> (r: Result<Action, ErrKind>)
        requires
            old(self).wf(),
        ensures
            final(self).wf(),
            !old(self).has_name(name@) ==> r == Err::<Action, ErrKind>(ErrKind::NotFound) && *final(self) == *old(self),
            old(self).has_name(name@) ==> ({
                let i = old(self).idx(name@);
                let step = ServiceState::spec_probe_passed(old(self).states@[i]);
                r == Ok::<Action, ErrKind>(step.1) && final(self).defs@ == old(self).defs@
                    && final(self).states@ == old(self).states@.update(i, step.0)
            }),
    {
        let i = match find_def(&self.defs, name) {
            None => {
                return Err(ErrKind::NotFound);
            },
            Some(i) => i,
        };
        proof {
            lemma_idx_unique(self.defs@, name@, i as int);
        }
        let mut s = self.states[i];
        let a = s.on_probe_passed();
        self.states[i] = s;
        Ok(a)
    }

    /// Record a readiness probe that exhausted its retries.
    pub fn on_probe_failed(&mut self, name: &str) -> (r: Result<Action, ErrKind>)
        requires
            old(self).wf(),
        ensures
            final(self).wf(),
            !old(self).has_name(name@) ==> r == Err::<Action, ErrKind>(ErrKind::NotFound) && *final(self) == *old(self),
            old(self).has_name(name@) ==> ({
                let i = old(self).idx(name@);
                let step = ServiceState::spec_probe_failed(
                    old(self).states@[i],
                    old(self).defs@[i].signal,
                );
                r == Ok::<Action, ErrKind>(step.1) && final(self).defs@ == old(self).defs@
                    && final(self).states@ == old(self).states@.update(i, step.0)
            }),
    {
        let i = match find_def(&self.defs, name) {
            None => {
                return Err(ErrKind::NotFound);
            },
            Some(i) => i,
        };
        proof {
            lemma_idx_unique(self.defs@, name@, i as int);
        }
        let mut s = self.states[i];
        let a = s.on_probe_failed(self.defs[i].signal);
        self.states[i] = s;
        Ok(a)
    }

    /// Record the death of the service's process.
    pub fn on_exited(&mut self, name: &str, exit: crate::types::ExitStatus) -> (r: Result<
        Action,
        ErrKind,
    >)
        requires
            old(self).wf(),
        ensures
            final(self).wf(),
            !old(self).has_name(name@) ==> r == Err::<Action, ErrKind>(ErrKind::NotFound) && *final(self) == *old(self),
            old(self).has_name(name@) ==> ({
                let i = old(self).idx(name@);
                let step = ServiceState::spec_exited(
                    old(self).states@[i],
                    exit,
                    old(self).defs@[i].oneshot,
                );
                r == Ok::<Action, ErrKind>(step.1) && final(self).defs@ == old(self).defs@
                    && final(self).states@ == old(self).states@.update(i, step.0)
            }),
    {
        let i = match find_def(&self.defs, name) {
            None => {
                return Err(ErrKind::NotFound);
            },
            Some(i) => i,
        };
        proof {
            lemma_idx_unique(self.defs@, name@, i as int);
        }
        let mut s = self.states[i];
        let a = s.on_exited(exit, self.defs[i].oneshot);
        self.states[i] = s;
        Ok(a)
    }

    /// Record that a scheduled restart delay has elapsed.
    pub fn on_backoff_elapsed(&mut self, name: &str) -> (r: Result<Action, ErrKind>)
        requires
            old(self).wf(),
        ensures
            final(self).wf(),
            !old(self).has_name(name@) ==> r == Err::<Action, ErrKind>(ErrKind::NotFound) && *final(self) == *old(self),
            old(self).has_name(name@) ==> ({
                let i = old(self).idx(name@);
                let step = ServiceState::spec_backoff_elapsed(old(self).states@[i]);
                r == Ok::<Action, ErrKind>(step.1) && final(self).defs@ == old(self).defs@
                    && final(self).states@ == old(self).states@.update(i, step.0)
            }),
    {
        let i = match find_def(&self.defs, name) {
            None => {
                return Err(ErrKind::NotFound);
            },
            Some(i) => i,
        };
        proof {
            lemma_idx_unique(self.defs@, name@, i as int);
        }
        let mut s = self.states[i];
        let a = s.on_backoff_elapsed();
        self.states[i] = s;
        Ok(a)
    }
}

} // verus!
