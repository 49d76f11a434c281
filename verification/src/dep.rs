//! Load-time dependency analysis. A service can ever launch only if the
//! whole chain of names it waits on exists and is itself launchable; a
//! dependency cycle, or a dangling name anywhere behind it, makes that
//! impossible. `launchable` states this with a fuel bound: with the number
//! of definitions as fuel, a service is launchable exactly when no cycle
//! and no dangling name sits behind it, because an acyclic chain can never
//! be longer than the number of definitions. `dependency_errors` computes
//! that predicate for every definition by iterating one readiness round
//! per fuel unit.

use vstd::prelude::*;

use crate::registry::{has_svc, idx_svc, lemma_idx_unique, unique_names};
use crate::types::{ErrKind, ServiceDef};

verus! {

/// The named service exists and, within `fuel` launch waves, every name it
/// waits on is launchable too.
pub open spec fn launchable(defs: Seq<ServiceDef>, name: Seq<char>, fuel: nat) -> bool
    decreases fuel,
{
    &&& fuel > 0
    &&& has_svc(defs, name)
    &&& (forall|k: int|
        0 <= k < defs[idx_svc(defs, name)].after@.len() ==> launchable(
            defs,
            (#[trigger] defs[idx_svc(defs, name)].after@[k])@,
            (fuel - 1) as nat,
        ))
}

/// Every name the `i`-th definition waits on is launchable within `fuel`.
pub open spec fn deps_launchable(defs: Seq<ServiceDef>, i: int, fuel: nat) -> bool {
    forall|k: int|
        0 <= k < defs[i].after@.len() ==> launchable(
            defs,
            (#[trigger] defs[i].after@[k])@,
            fuel,
        )
}

/// Unfolding `launchable` at a definition's own name: one more unit of
/// fuel asks exactly that all its dependencies be launchable.
pub proof fn lemma_launchable_unfold(defs: Seq<ServiceDef>, i: int, fuel: nat)
    requires
        unique_names(defs),
        0 <= i < defs.len(),
    ensures
        launchable(defs, defs[i].name@, (fuel + 1) as nat) == deps_launchable(defs, i, fuel),
{
    lemma_idx_unique(defs, defs[i].name@, i);
}

/// More fuel never hurts: a service launchable within `f` launch waves is
/// launchable within any larger number of waves. A definition flagged by
/// `dependency_errors` — not launchable with one wave per definition — is
/// therefore launchable with no amount of fuel at all, since an acyclic
/// dependency chain cannot be longer than the number of definitions.
pub proof fn lemma_launchable_monotone(defs: Seq<ServiceDef>, name: Seq<char>, f: nat, g: nat)
    requires
        launchable(defs, name, f),
        f <= g,
    ensures
        launchable(defs, name, g),
    decreases f,
{
    let i = idx_svc(defs, name);
    assert forall|k: int| 0 <= k < defs[i].after@.len() implies launchable(
        defs,
        (#[trigger] defs[i].after@[k])@,
        (g - 1) as nat,
    ) by {
        lemma_launchable_monotone(defs, defs[i].after@[k]@, (f - 1) as nat, (g - 1) as nat);
    }
}

/// Two services that each wait on the other can never launch, with any
/// amount of fuel: the core of cycle detection.
pub proof fn lemma_mutual_wait_never_launchable(defs: Seq<ServiceDef>, i: int, j: int, fuel: nat)
    requires
        unique_names(defs),
        0 <= i < defs.len(),
        0 <= j < defs.len(),
        exists|k: int|
            0 <= k < defs[i].after@.len() && (#[trigger] defs[i].after@[k])@ == defs[j].name@,
        exists|k: int|
            0 <= k < defs[j].after@.len() && (#[trigger] defs[j].after@[k])@ == defs[i].name@,
    ensures
        !launchable(defs, defs[i].name@, fuel),
    decreases fuel,
{
    if fuel > 0 && launchable(defs, defs[i].name@, fuel) {
        lemma_idx_unique(defs, defs[i].name@, i);
        let k = choose|k: int|
            0 <= k < defs[i].after@.len() && (#[trigger] defs[i].after@[k])@ == defs[j].name@;
        assert(launchable(defs, defs[i].after@[k]@, (fuel - 1) as nat));
        lemma_mutual_wait_never_launchable(defs, j, i, (fuel - 1) as nat);
    }
}

/// One readiness round: from "launchable within `fuel`" for every
/// definition to "launchable within `fuel + 1`".
fn round(defs: &Vec<ServiceDef>, marked: &Vec<bool>, Ghost(fuel): Ghost<nat>) -> (out: Vec<bool>)
    requires
        unique_names(defs@),
        marked@.len() == defs@.len(),
        forall|j: int|
            0 <= j < defs@.len() ==> marked@[j] == launchable(
                defs@,
                (#[trigger] defs@[j]).name@,
                fuel,
            ),
    ensures
        out@.len() == defs@.len(),
        forall|j: int|
            0 <= j < defs@.len() ==> out@[j] == launchable(
                defs@,
                (#[trigger] defs@[j]).name@,
                (fuel + 1) as nat,
            ),
{
    let mut out: Vec<bool> = Vec::new();
    let mut i: usize = 0;
    while i < defs.len()
        invariant
            unique_names(defs@),
            marked@.len() == defs@.len(),
            forall|j: int|
                0 <= j < defs@.len() ==> marked@[j] == launchable(
                    defs@,
                    (#[trigger] defs@[j]).name@,
                    fuel,
                ),
            i <= defs@.len(),
            out@.len() == i,
            forall|j: int|
                0 <= j < i ==> out@[j] == launchable(
                    defs@,
                    (#[trigger] defs@[j]).name@,
                    (fuel + 1) as nat,
                ),
        decreases defs@.len() - i,
    {
        let mut ok = true;
        let mut k: usize = 0;
        let n = defs[i].after.len();
        while k < n
            invariant
                unique_names(defs@),
                marked@.len() == defs@.len(),
                forall|j: int|
                    0 <= j < defs@.len() ==> marked@[j] == launchable(
                        defs@,
                        (#[trigger] defs@[j]).name@,
                        fuel,
                    ),
                i < defs@.len(),
                n == defs@[i as int].after@.len(),
                k <= n,
                ok == (forall|m: int|
                    0 <= m < k ==> launchable(
                        defs@,
                        (#[trigger] defs@[i as int].after@[m])@,
                        fuel,
                    )),
            decreases n - k,
        {
            let dep = &defs[i].after[k];
            let dep_ok = match crate::registry::find_def(defs, dep.as_str()) {
                Some(j) => {
                    proof {
                        lemma_idx_unique(defs@, dep@, j as int);
                    }
                    marked[j]
                },
                None => {
                    proof {
                        assert(!launchable(defs@, dep@, fuel));
                    }
                    false
                },
            };
            proof {
                assert(dep_ok == launchable(defs@, defs@[i as int].after@[k as int]@, fuel));
            }
            ok = ok && dep_ok;
            k = k + 1;
        }
        proof {
            assert(ok == deps_launchable(defs@, i as int, fuel));
            lemma_launchable_unfold(defs@, i as int, fuel);
        }
        out.push(ok);
        i = i + 1;
    }
    out
}

/// Flag, for every definition, whether a dependency cycle or a dangling
/// dependency anywhere behind it prevents it from ever launching. Entries
/// flagged `DependencyCycle` must never be launched; all others are
/// unaffected.
pub fn dependency_errors(defs: &Vec<ServiceDef>) -> (r: Vec<Option<ErrKind>>)
    requires
        unique_names(defs@),
        defs@.len() < usize::MAX,
    ensures
        r@.len() == defs@.len(),
        forall|i: int|
            0 <= i < defs@.len() ==> r@[i] == (if launchable(
                defs@,
                (#[trigger] defs@[i]).name@,
                (defs@.len() + 1) as nat,
            ) {
                Option::<ErrKind>::None
            } else {
                Option::Some(ErrKind::DependencyCycle)
            }),
{
    let mut marked: Vec<bool> = Vec::new();
    let mut i: usize = 0;
    while i < defs.len()
        invariant
            i <= defs@.len(),
            marked@.len() == i,
            forall|j: int| 0 <= j < i ==> marked@[j] == false,
        decreases defs@.len() - i,
    {
        marked.push(false);
        i = i + 1;
    }
    let mut fuel: usize = 0;
    while fuel < defs.len() + 1
        invariant
            unique_names(defs@),
            defs@.len() < usize::MAX,
            fuel <= defs@.len() + 1,
            marked@.len() == defs@.len(),
            forall|j: int|
                0 <= j < defs@.len() ==> marked@[j] == launchable(
                    defs@,
                    (#[trigger] defs@[j]).name@,
                    fuel as nat,
                ),
        decreases defs@.len() + 1 - fuel,
    {
        marked = round(defs, &marked, Ghost(fuel as nat));
        fuel = fuel + 1;
    }
    let mut out: Vec<Option<ErrKind>> = Vec::new();
    let mut j: usize = 0;
    while j < defs.len()
        invariant
            marked@.len() == defs@.len(),
            j <= defs@.len(),
            out@.len() == j,
            forall|m: int|
                0 <= m < defs@.len() ==> marked@[m] == launchable(
                    defs@,
                    (#[trigger] defs@[m]).name@,
                    (defs@.len() + 1) as nat,
                ),
            forall|m: int|
                0 <= m < j ==> out@[m] == (if launchable(
                    defs@,
                    (#[trigger] defs@[m]).name@,
                    (defs@.len() + 1) as nat,
                ) {
                    Option::<ErrKind>::None
                } else {
                    Option::Some(ErrKind::DependencyCycle)
                }),
        decreases defs@.len() - j,
    {
        if marked[j] {
            out.push(None);
        } else {
            out.push(Some(ErrKind::DependencyCycle));
        }
        j = j + 1;
    }
    out
}

} // verus!
