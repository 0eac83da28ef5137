use vstd::prelude::*;

use crate::stages::{stage_list, stage_syscalls, Arch, Stage};
use crate::syscall::Syscall;

verus! {

/// The one failure an activation reports: the backend refused to create the
/// filter context, to add a rule, or to load the filter. Callers treat all
/// three alike: they abort start-up.
#[derive(Clone, Copy, Debug, PartialEq, Eq, Structural)]
pub enum SeccompError {
    FFI,
}

/// Where an activation stands in the life of its filter context.
#[derive(Clone, Copy, Debug, PartialEq, Eq, Structural)]
pub enum Phase {
    /// No context yet; one is to be created whose default action kills.
    Create,
    /// The context is held; the syscall at this position of the list is to be
    /// permitted next.
    Permit(usize),
    /// Every syscall of the list is permitted; the rule set is to be loaded.
    Commit,
    /// The context is to be released; the flag says whether the filter loaded.
    Release(bool),
    /// Nothing is held any more; the flag says whether the filter loaded.
    Finished(bool),
}

/// What the filtering backend is to do next, as an activation asks for it.
///
/// `Create` asks for a context whose default action for every syscall
/// without a rule is to kill: this is fixed, and no caller chooses it.
#[derive(Clone, Copy, Debug, PartialEq, Eq)]
pub enum Action {
    Create,
    Permit(Syscall),
    Commit,
    Release,
    Finish(Result<(), SeccompError>),
}

/// The phase that comes once the first `i` syscalls of `list` are permitted.
pub open spec fn after_permits(list: Seq<Syscall>, i: int) -> Phase {
    if i < list.len() {
        Phase::Permit(i as usize)
    } else {
        Phase::Commit
    }
}

/// The phase after the backend answered the action of phase `p` with `ok`.
pub open spec fn next_phase(list: Seq<Syscall>, p: Phase, ok: bool) -> Phase {
    match p {
        Phase::Create => if ok {
            after_permits(list, 0)
        } else {
            Phase::Finished(false)
        },
        Phase::Permit(i) => if ok {
            after_permits(list, i + 1)
        } else {
            Phase::Release(false)
        },
        Phase::Commit => Phase::Release(ok),
        Phase::Release(loaded) => Phase::Finished(loaded),
        Phase::Finished(loaded) => Phase::Finished(loaded),
    }
}

/// The outcome reported once the filter did or did not load.
pub open spec fn outcome(loaded: bool) -> Result<(), SeccompError> {
    if loaded {
        Ok(())
    } else {
        Err(SeccompError::FFI)
    }
}

/// The action that phase `p` asks of the backend.
pub open spec fn action_of(list: Seq<Syscall>, p: Phase) -> Action {
    match p {
        Phase::Create => Action::Create,
        Phase::Permit(i) => Action::Permit(list[i as int]),
        Phase::Commit => Action::Commit,
        Phase::Release(_) => Action::Release,
        Phase::Finished(loaded) => Action::Finish(outcome(loaded)),
    }
}

/// Whether phase `p` holds a live filter context.
pub open spec fn holds_context(p: Phase) -> bool {
    p is Permit || p is Commit || p is Release
}

/// The actions asked for, from phase `p`, while the backend answers `events`
/// one by one: `events[k]` answers the `k`-th action.
pub open spec fn issued(list: Seq<Syscall>, p: Phase, events: Seq<bool>) -> Seq<Action>
    decreases events.len(),
{
    if events.len() == 0 {
        Seq::empty()
    } else {
        seq![action_of(list, p)] + issued(list, next_phase(list, p, events[0]), events.drop_first())
    }
}

/// The phase reached from `p` once the backend answered `events`.
pub open spec fn run(list: Seq<Syscall>, p: Phase, events: Seq<bool>) -> Phase
    decreases events.len(),
{
    if events.len() == 0 {
        p
    } else {
        run(list, next_phase(list, p, events[0]), events.drop_first())
    }
}

/// How many of `acts` release the context.
pub open spec fn releases(acts: Seq<Action>) -> nat
    decreases acts.len(),
{
    if acts.len() == 0 {
        0
    } else {
        (if acts[0] is Release {
            1nat
        } else {
            0nat
        }) + releases(acts.drop_first())
    }
}

/// The actions of an activation in which the backend accepts everything:
/// create, one permit for each syscall of the list in order, commit, release.
pub open spec fn script(list: Seq<Syscall>) -> Seq<Action> {
    seq![Action::Create] + list.map_values(|s: Syscall| Action::Permit(s)) + seq![
        Action::Commit,
        Action::Release,
    ]
}

/// The rule set that a committed context enforces after permitting `list`:
/// rules are unconditional allows, so order and repetition do not matter.
pub open spec fn rule_set(list: Seq<Syscall>) -> Set<Syscall> {
    list.to_set()
}

/// One activation of a stage: the list of syscalls to permit and the phase
/// that its filter context has reached.
pub struct Activation {
    syscalls: Vec<Syscall>,
    phase: Phase,
}

impl Activation {
    /// The syscalls this activation permits, in order.
    pub closed spec fn list(&self) -> Seq<Syscall> {
        self.syscalls@
    }

    /// The phase this activation has reached.
    pub closed spec fn phase(&self) -> Phase {
        self.phase
    }

    /// A permit phase points into the list.
    pub open spec fn wf(&self) -> bool {
        self.phase() matches Phase::Permit(i) ==> i < self.list().len()
    }

    /// An activation that will permit `syscalls`, before its context exists.
    pub fn new(syscalls: Vec<Syscall>) -> (r: Self)
        ensures
            r.wf(),
            r.list() == syscalls@,
            r.phase() == Phase::Create,
    {
        Activation { syscalls, phase: Phase::Create }
    }

    /// An activation of `stage` on `arch`, before its context exists.
    pub fn for_stage(stage: Stage, arch: Arch) -> (r: Self)
        ensures
            r.wf(),
            r.list() == stage_list(stage, arch),
            r.phase() == Phase::Create,
    {
        Activation::new(stage_syscalls(stage, arch))
    }

    /// The phase reached so far.
    pub fn current_phase(&self) -> (r: Phase)
        ensures
            r == self.phase(),
    {
        self.phase
    }

    /// Whether the activation is over and its outcome known.
    pub fn is_finished(&self) -> (r: bool)
        ensures
            r == self.phase() is Finished,
    {
        matches!(self.phase, Phase::Finished(_))
    }

    /// What the backend is to do next.
    pub fn action(&self) -> (r: Action)
        requires
            self.wf(),
        ensures
            r == action_of(self.list(), self.phase()),
    {
        match self.phase {
            Phase::Create => Action::Create,
            Phase::Permit(i) => Action::Permit(self.syscalls[i]),
            Phase::Commit => Action::Commit,
            Phase::Release(_) => Action::Release,
            Phase::Finished(loaded) => Action::Finish(
                if loaded {
                    Ok(())
                } else {
                    Err(SeccompError::FFI)
                },
            ),
        }
    }

    /// Takes the backend's answer to the last action: `ok` is whether it
    /// succeeded (a release always does).
    pub fn record(&mut self, ok: bool)
        requires
            old(self).wf(),
        ensures
            final(self).wf(),
            final(self).list() == old(self).list(),
            final(self).phase() == next_phase(old(self).list(), old(self).phase(), ok),
    {
        let n = self.syscalls.len();
        self.phase = match self.phase {
            Phase::Create => if ok {
                if 0 < n {
                    Phase::Permit(0)
                } else {
                    Phase::Commit
                }
            } else {
                Phase::Finished(false)
            },
            Phase::Permit(i) => if ok {
                if i + 1 < n {
                    Phase::Permit(i + 1)
                } else {
                    Phase::Commit
                }
            } else {
                Phase::Release(false)
            },
            Phase::Commit => Phase::Release(ok),
            Phase::Release(loaded) => Phase::Finished(loaded),
            Phase::Finished(loaded) => Phase::Finished(loaded),
        };
    }
}

/// `issued` answers one action per event, the first one being that of `p`.
proof fn lemma_issued_shape(list: Seq<Syscall>, p: Phase, events: Seq<bool>)
    ensures
        issued(list, p, events).len() == events.len(),
        events.len() > 0 ==> issued(list, p, events)[0] == action_of(list, p),
        forall|j: int|
            0 < j < events.len() ==> #[trigger] issued(list, p, events)[j] == issued(
                list,
                next_phase(list, p, events[0]),
                events.drop_first(),
            )[j - 1],
    decreases events.len(),
{
    if events.len() > 0 {
        lemma_issued_shape(list, next_phase(list, p, events[0]), events.drop_first());
    }
}

/// Once the list is done, no permit is asked for again.
proof fn lemma_no_permit_after_commit(list: Seq<Syscall>, p: Phase, events: Seq<bool>)
    requires
        p is Commit || p is Release || p is Finished,
    ensures
        forall|j: int| 0 <= j < events.len() ==> !(#[trigger] issued(list, p, events)[j] is Permit),
    decreases events.len(),
{
    lemma_issued_shape(list, p, events);
    if events.len() > 0 {
        lemma_no_permit_after_commit(list, next_phase(list, p, events[0]), events.drop_first());
    }
}

/// Once something failed, neither a permit nor a commit is asked for, and the
/// outcome stays a failure.
proof fn lemma_failure_sticks(list: Seq<Syscall>, p: Phase, events: Seq<bool>)
    requires
        p == Phase::Release(false) || p == Phase::Finished(false),
    ensures
        forall|j: int|
            0 <= j < events.len() ==> !(#[trigger] issued(list, p, events)[j] is Permit) && !(
            issued(list, p, events)[j] is Commit),
        run(list, p, events) == Phase::Release(false) || run(list, p, events) == Phase::Finished(
            false,
        ),
    decreases events.len(),
{
    lemma_issued_shape(list, p, events);
    if events.len() > 0 {
        lemma_failure_sticks(list, next_phase(list, p, events[0]), events.drop_first());
    }
}

/// From a phase other than `Create`, every live context is released once:
/// the releases asked for, plus one if a context is still held at the end,
/// make one if a context was held at the start.
proof fn lemma_release_balance(list: Seq<Syscall>, p: Phase, events: Seq<bool>)
    requires
        !(p is Create),
    ensures
        releases(issued(list, p, events)) + (if holds_context(run(list, p, events)) {
            1int
        } else {
            0int
        }) == (if holds_context(p) {
            1int
        } else {
            0int
        }),
    decreases events.len(),
{
    if events.len() > 0 {
        let q = next_phase(list, p, events[0]);
        let rest = events.drop_first();
        lemma_release_balance(list, q, rest);
        let acts = issued(list, p, events);
        assert(acts.drop_first() =~= issued(list, q, rest));
    }
}

/// Resource cleanup: an activation releases its context at most once, never
/// when the context could not be created, and exactly once by the time it
/// has finished after a successful creation.
pub proof fn lemma_release_exactly_once(list: Seq<Syscall>, events: Seq<bool>)
    ensures
        releases(issued(list, Phase::Create, events)) <= 1,
        events.len() > 0 && !events[0] ==> releases(issued(list, Phase::Create, events)) == 0,
        events.len() > 0 && events[0] && run(list, Phase::Create, events) is Finished ==> releases(
            issued(list, Phase::Create, events),
        ) == 1,
{
    if events.len() > 0 {
        let q = next_phase(list, Phase::Create, events[0]);
        let rest = events.drop_first();
        lemma_release_balance(list, q, rest);
        let acts = issued(list, Phase::Create, events);
        assert(acts.drop_first() =~= issued(list, q, rest));
        assert(run(list, Phase::Create, events) == run(list, q, rest));
    }
}

/// From `Create` or a permit phase, a permit that fails stops the list: no
/// commit is ever asked for, and the outcome is a failure.
proof fn lemma_failed_permit_from(list: Seq<Syscall>, p: Phase, events: Seq<bool>, k: int)
    requires
        p is Create || p is Permit,
        0 <= k < events.len(),
        issued(list, p, events)[k] is Permit,
        !events[k],
    ensures
        forall|j: int| 0 <= j < events.len() ==> !(#[trigger] issued(list, p, events)[j] is Commit),
        run(list, p, events) == Phase::Release(false) || run(list, p, events) == Phase::Finished(
            false,
        ),
    decreases events.len(),
{
    lemma_issued_shape(list, p, events);
    let q = next_phase(list, p, events[0]);
    let rest = events.drop_first();
    assert(run(list, p, events) == run(list, q, rest));
    if k == 0 {
        lemma_failure_sticks(list, q, rest);
        lemma_issued_shape(list, q, rest);
    } else {
        assert(issued(list, q, rest)[k - 1] is Permit);
        if q is Permit {
            lemma_failed_permit_from(list, q, rest, k - 1);
        } else if q is Commit {
            lemma_no_permit_after_commit(list, q, rest);
        } else {
            lemma_failure_sticks(list, q, rest);
        }
    }
}

/// Failure propagation: if the backend refuses any rule, the activation never
/// asks to commit, and it ends in failure.
pub proof fn lemma_failed_permit_blocks_commit(list: Seq<Syscall>, events: Seq<bool>, k: int)
    requires
        0 <= k < events.len(),
        issued(list, Phase::Create, events)[k] is Permit,
        !events[k],
    ensures
        forall|j: int|
            0 <= j < events.len() ==> !(#[trigger] issued(list, Phase::Create, events)[j] is Commit),
        run(list, Phase::Create, events) is Finished ==> run(list, Phase::Create, events)
            == Phase::Finished(false) && action_of(list, run(list, Phase::Create, events))
            == Action::Finish(Err(SeccompError::FFI)),
{
    lemma_failed_permit_from(list, Phase::Create, events, k);
}

/// From the phase after `i` permits, a backend that accepts everything is
/// asked for the remaining permits in order, a commit and a release, and the
/// filter loads.
proof fn lemma_accepting_from(list: Seq<Syscall>, i: int, events: Seq<bool>)
    requires
        list.len() <= usize::MAX,
        0 <= i <= list.len(),
        events.len() == list.len() - i + 2,
        forall|j: int| 0 <= j < events.len() ==> #[trigger] events[j],
    ensures
        issued(list, after_permits(list, i), events) == list.subrange(i, list.len() as int).map_values(
            |s: Syscall| Action::Permit(s),
        ) + seq![Action::Commit, Action::Release],
        run(list, after_permits(list, i), events) == Phase::Finished(true),
    decreases list.len() - i,
{
    let p = after_permits(list, i);
    let rest = events.drop_first();
    let tail = list.subrange(i, list.len() as int).map_values(|s: Syscall| Action::Permit(s));
    assert(events[0]);
    if i < list.len() {
        lemma_accepting_from(list, i + 1, rest);
        assert(next_phase(list, p, events[0]) == after_permits(list, i + 1));
        assert(run(list, p, events) == run(list, after_permits(list, i + 1), rest));
        let tail1 = list.subrange(i + 1, list.len() as int).map_values(
            |s: Syscall| Action::Permit(s),
        );
        assert(tail =~= seq![Action::Permit(list[i])] + tail1);
        assert(issued(list, p, events) =~= seq![Action::Permit(list[i])] + (tail1 + seq![
            Action::Commit,
            Action::Release,
        ]));
    } else {
        assert(tail =~= Seq::<Action>::empty());
        let rest2 = rest.drop_first();
        assert(rest[0]);
        assert(rest2.len() == 0);
        assert(issued(list, Phase::Finished(true), rest2) =~= Seq::<Action>::empty());
        assert(run(list, Phase::Release(true), rest) == run(list, Phase::Finished(true), rest2));
        assert(issued(list, Phase::Release(true), rest) =~= seq![Action::Release]);
        assert(issued(list, p, events) =~= seq![Action::Commit, Action::Release]);
    }
}

/// Success is owed: when the backend accepts every step, an activation asks
/// for exactly its script (create, each permit in list order, commit,
/// release) and reports success.
pub proof fn lemma_accepting_backend_succeeds(list: Seq<Syscall>, events: Seq<bool>)
    requires
        list.len() <= usize::MAX,
        events.len() == list.len() + 3,
        forall|j: int| 0 <= j < events.len() ==> #[trigger] events[j],
    ensures
        issued(list, Phase::Create, events) == script(list),
        run(list, Phase::Create, events) == Phase::Finished(true),
        action_of(list, run(list, Phase::Create, events)) == Action::Finish(Ok(())),
{
    let rest = events.drop_first();
    assert(events[0]);
    lemma_accepting_from(list, 0, rest);
    assert(list.subrange(0, list.len() as int) =~= list);
    assert(issued(list, Phase::Create, events) =~= script(list));
}

/// From the phase after `i` permits, an activation that ends in success was
/// accepted at every remaining permit and at the commit, and asked for them
/// in list order before its release.
proof fn lemma_success_from(list: Seq<Syscall>, i: int, events: Seq<bool>)
    requires
        list.len() <= usize::MAX,
        0 <= i <= list.len(),
        run(list, after_permits(list, i), events) == Phase::Finished(true),
    ensures
        events.len() >= list.len() - i + 2,
        forall|j: int| 0 <= j < list.len() - i + 1 ==> #[trigger] events[j],
        issued(list, after_permits(list, i), events).subrange(0, list.len() - i + 2)
            == list.subrange(i, list.len() as int).map_values(|s: Syscall| Action::Permit(s))
            + seq![Action::Commit, Action::Release],
    decreases list.len() - i,
{
    let p = after_permits(list, i);
    assert(events.len() > 0);
    let q = next_phase(list, p, events[0]);
    let rest = events.drop_first();
    assert(run(list, p, events) == run(list, q, rest));
    lemma_issued_shape(list, p, events);
    if !events[0] {
        lemma_failure_sticks(list, q, rest);
    }
    assert(events[0]);
    let tail = list.subrange(i, list.len() as int).map_values(|s: Syscall| Action::Permit(s));
    if i < list.len() {
        lemma_success_from(list, i + 1, rest);
        let tail1 = list.subrange(i + 1, list.len() as int).map_values(
            |s: Syscall| Action::Permit(s),
        );
        assert(tail =~= seq![Action::Permit(list[i])] + tail1);
        let acts = issued(list, p, events);
        let acts1 = issued(list, q, rest);
        assert(acts.subrange(0, list.len() - i + 2) =~= seq![Action::Permit(list[i])]
            + acts1.subrange(0, list.len() - (i + 1) + 2));
        assert forall|j: int| 0 <= j < list.len() - i + 1 implies #[trigger] events[j] by {
            if j > 0 {
                assert(events[j] == rest[j - 1]);
            }
        }
    } else {
        assert(tail =~= Seq::<Action>::empty());
        assert(q == Phase::Release(true));
        assert(rest.len() > 0);
        lemma_issued_shape(list, q, rest);
        let acts = issued(list, p, events);
        assert(acts.subrange(0, 2) =~= seq![Action::Commit, Action::Release]);
    }
}

/// Success only when everything was accepted: an activation that reports
/// success had its context created, every permit of its list accepted in
/// order and its commit accepted, and released the context after.
pub proof fn lemma_success_requires_acceptance(list: Seq<Syscall>, events: Seq<bool>)
    requires
        list.len() <= usize::MAX,
        run(list, Phase::Create, events) == Phase::Finished(true),
    ensures
        events.len() >= list.len() + 3,
        forall|j: int| 0 <= j < list.len() + 2 ==> #[trigger] events[j],
        issued(list, Phase::Create, events).subrange(0, list.len() as int + 3) == script(list),
{
    assert(events.len() > 0);
    let q = next_phase(list, Phase::Create, events[0]);
    let rest = events.drop_first();
    assert(run(list, Phase::Create, events) == run(list, q, rest));
    lemma_issued_shape(list, Phase::Create, events);
    if !events[0] {
        lemma_failure_sticks(list, q, rest);
    }
    assert(events[0]);
    lemma_success_from(list, 0, rest);
    assert(list.subrange(0, list.len() as int) =~= list);
    let acts = issued(list, Phase::Create, events);
    assert(acts.subrange(0, list.len() as int + 3) =~= seq![Action::Create] + issued(list, q, rest).subrange(0, list.len() as int + 2));
    assert(acts.subrange(0, list.len() as int + 3) =~= script(list));
    assert forall|j: int| 0 <= j < list.len() + 2 implies #[trigger] events[j] by {
        if j > 0 {
            assert(events[j] == rest[j - 1]);
        }
    }
}

/// Idempotent permit: permitting a syscall a second time in the same context
/// leaves the committed rule set as it was after the first time.
pub proof fn lemma_permit_twice(list: Seq<Syscall>, s: Syscall)
    ensures
        rule_set(list.push(s).push(s)) == rule_set(list.push(s)),
{
    let once = list.push(s);
    let twice = once.push(s);
    assert forall|x: Syscall| twice.contains(x) <==> once.contains(x) by {
        if once.contains(x) {
            let j = choose|j: int| 0 <= j < once.len() && once[j] == x;
            assert(twice[j] == x);
        }
        if twice.contains(x) {
            let j = choose|j: int| 0 <= j < twice.len() && twice[j] == x;
            if j < once.len() {
                assert(once[j] == x);
            } else {
                assert(once[once.len() - 1] == x);
            }
        }
    }
    assert(rule_set(twice) =~= rule_set(once));
}

} // verus!
