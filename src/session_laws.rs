//! Laws of a supervised session, stated over every sequence of events.
use vstd::prelude::*;

use crate::supervisor::{
    initial_state, next, Action, Decision, Event, Phase, Role, Supervisor,
};

verus! {

/// The state reached and the decisions made when `evs` are fed to `s` in
/// order.
pub open spec fn run(s: Supervisor, evs: Seq<Event>) -> (Supervisor, Seq<Decision>)
    decreases evs.len(),
{
    if evs.len() == 0 {
        (s, Seq::empty())
    } else {
        let first = next(s, evs[0]);
        let rest = run(first.0, evs.drop_first());
        (rest.0, seq![first.1] + rest.1)
    }
}

/// How many of the decisions `ds` kill role `r`.
pub open spec fn kills(ds: Seq<Decision>, r: Role) -> nat
    decreases ds.len(),
{
    if ds.len() == 0 {
        0
    } else {
        (if ds[0].action == Action::Kill(r) { 1nat } else { 0nat }) + kills(ds.drop_first(), r)
    }
}

/// How many of the decisions `ds` announce an outcome.
pub open spec fn finishes(ds: Seq<Decision>) -> nat
    decreases ds.len(),
{
    if ds.len() == 0 {
        0
    } else {
        (if ds[0].action is Finish { 1nat } else { 0nat }) + finishes(ds.drop_first())
    }
}

/// Whether a guard of role `r` holds a handle in state `s`.
pub open spec fn live(s: Supervisor, r: Role) -> bool {
    match r {
        Role::Primary => s.primary_live,
        Role::Secondary => s.secondary_live,
    }
}

/// The order of the phases; only the poll loop moves within one rank.
pub open spec fn rank(p: Phase) -> nat {
    match p {
        Phase::CheckingTool => 0,
        Phase::Installing => 1,
        Phase::ReadingConfig => 2,
        Phase::CheckingRuntime => 3,
        Phase::SpawningPrimary => 4,
        Phase::SpawningSecondary => 5,
        Phase::InstallingSignal => 6,
        Phase::CheckingCancel => 7,
        Phase::Polling => 7,
        Phase::Sleeping => 7,
        Phase::ShuttingDown => 8,
        Phase::Finished => 9,
    }
}

/// The rank of the phase in which role `r` is spawned.
pub open spec fn spawn_rank(r: Role) -> nat {
    match r {
        Role::Primary => 4,
        Role::Secondary => 5,
    }
}

/// How many kills of role `r` may still come from state `s`: one while a
/// handle is held or may still be spawned, none otherwise.
pub open spec fn kill_budget(s: Supervisor, r: Role) -> nat {
    if live(s, r) || rank(s.phase) <= spawn_rank(r) {
        1
    } else {
        0
    }
}

/// What holds of every state that a session reaches.
pub open spec fn reachable_inv(s: Supervisor) -> bool {
    &&& rank(s.phase) <= 4 ==> !s.primary_live && !s.secondary_live
    &&& rank(s.phase) <= 5 ==> !s.secondary_live
    &&& rank(s.phase) >= 8 ==> !s.secondary_live
    &&& s.phase == Phase::Finished ==> !s.primary_live
    &&& s.cancelled ==> rank(s.phase) >= 8
}

pub(crate) proof fn lemma_step(s: Supervisor, e: Event, r: Role)
    requires
        reachable_inv(s),
    ensures
        reachable_inv(next(s, e).0),
        rank(s.phase) <= rank(next(s, e).0.phase),
        (if next(s, e).1.action == Action::Kill(r) { 1nat } else { 0nat }) + kill_budget(
            next(s, e).0,
            r,
        ) <= kill_budget(s, r),
        (if next(s, e).1.action is Finish { 1nat } else { 0nat }) + (if next(s, e).0.phase
            == Phase::Finished { 0nat } else { 1nat }) <= (if s.phase == Phase::Finished {
            0nat
        } else {
            1nat
        }),
        next(s, e).1.action is Finish ==> !next(s, e).0.primary_live
            && !next(s, e).0.secondary_live,
        s.cancelled ==> next(s, e).0.cancelled,
        rank(s.phase) >= 8 ==> next(s, e).1.action != Action::ReadCancel,
        next(s, e).1.action == Action::Kill(Role::Primary) ==> rank(next(s, e).0.phase) >= 8
            && !next(s, e).0.secondary_live,
{
}

proof fn lemma_run(s: Supervisor, evs: Seq<Event>, r: Role)
    requires
        reachable_inv(s),
    ensures
        reachable_inv(run(s, evs).0),
        run(s, evs).1.len() == evs.len(),
        kills(run(s, evs).1, r) + kill_budget(run(s, evs).0, r) <= kill_budget(s, r),
        finishes(run(s, evs).1) + (if run(s, evs).0.phase == Phase::Finished {
            0nat
        } else {
            1nat
        }) <= (if s.phase == Phase::Finished { 0nat } else { 1nat }),
        s.cancelled ==> run(s, evs).0.cancelled,
    decreases evs.len(),
{
    if evs.len() > 0 {
        lemma_step(s, evs[0], r);
        lemma_run(next(s, evs[0]).0, evs.drop_first(), r);
        let ds = run(s, evs).1;
        assert(ds.drop_first() =~= run(next(s, evs[0]).0, evs.drop_first()).1);
    }
}

proof fn lemma_run_len(s: Supervisor, evs: Seq<Event>)
    ensures
        run(s, evs).1.len() == evs.len(),
    decreases evs.len(),
{
    if evs.len() > 0 {
        lemma_run_len(next(s, evs[0]).0, evs.drop_first());
    }
}

proof fn lemma_run_append(s: Supervisor, a: Seq<Event>, b: Seq<Event>)
    ensures
        run(s, a + b).0 == run(run(s, a).0, b).0,
        run(s, a + b).1 == run(s, a).1 + run(run(s, a).0, b).1,
    decreases a.len(),
{
    if a.len() == 0 {
        assert(a + b =~= b);
        assert(run(s, a).1 + run(run(s, a).0, b).1 =~= run(run(s, a).0, b).1);
    } else {
        let s1 = next(s, a[0]).0;
        assert((a + b).drop_first() =~= a.drop_first() + b);
        lemma_run_append(s1, a.drop_first(), b);
        assert(run(s, a + b).1 =~= run(s, a).1 + run(run(s, a).0, b).1);
    }
}

/// Splits a run at event `i` into the decisions before it, the one it
/// causes, and the ones after it.
proof fn lemma_split(s: Supervisor, evs: Seq<Event>, i: int)
    requires
        0 <= i < evs.len(),
    ensures
        ({
            let before = run(s, evs.take(i));
            let at = next(before.0, evs[i]);
            let after = run(at.0, evs.skip(i + 1));
            &&& run(s, evs).0 == after.0
            &&& run(s, evs).1 == before.1 + seq![at.1] + after.1
            &&& before.1.len() == i
        }),
{
    let before = run(s, evs.take(i));
    let at = next(before.0, evs[i]);
    let tail = seq![evs[i]] + evs.skip(i + 1);
    assert(evs =~= evs.take(i) + tail);
    lemma_run_append(s, evs.take(i), tail);
    assert(tail.drop_first() =~= evs.skip(i + 1));
    assert(run(before.0, tail).1 =~= seq![at.1] + run(at.0, evs.skip(i + 1)).1);
    assert(before.1 + run(before.0, tail).1 =~= before.1 + seq![at.1] + run(
        at.0,
        evs.skip(i + 1),
    ).1);
    lemma_run_len(s, evs.take(i));
}

proof fn lemma_no_kill_at(ds: Seq<Decision>, r: Role, j: int)
    requires
        kills(ds, r) == 0,
        0 <= j < ds.len(),
    ensures
        ds[j].action != Action::Kill(r),
    decreases ds.len(),
{
    if j > 0 {
        lemma_no_kill_at(ds.drop_first(), r, j - 1);
    }
}

proof fn lemma_kills_append(a: Seq<Decision>, b: Seq<Decision>, r: Role)
    ensures
        kills(a + b, r) == kills(a, r) + kills(b, r),
    decreases a.len(),
{
    if a.len() == 0 {
        assert(a + b =~= b);
    } else {
        assert((a + b).drop_first() =~= a.drop_first() + b);
        lemma_kills_append(a.drop_first(), b, r);
    }
}

proof fn lemma_no_read_after_cancel(s: Supervisor, evs: Seq<Event>, j: int)
    requires
        reachable_inv(s),
        s.cancelled,
        0 <= j < evs.len(),
    ensures
        run(s, evs).1[j].action != Action::ReadCancel,
    decreases evs.len(),
{
    lemma_step(s, evs[0], Role::Primary);
    let rest = run(next(s, evs[0]).0, evs.drop_first());
    lemma_run_len(next(s, evs[0]).0, evs.drop_first());
    assert(run(s, evs).1 == seq![next(s, evs[0]).1] + rest.1);
    if j > 0 {
        lemma_no_read_after_cancel(next(s, evs[0]).0, evs.drop_first(), j - 1);
        assert(run(s, evs).1[j] == rest.1[j - 1]);
    }
}

/// Every watcher is killed at most once in a session, whatever the events,
/// and the outcome is announced at most once.
pub proof fn lemma_single_kill(evs: Seq<Event>, r: Role)
    ensures
        kills(run(initial_state(), evs).1, r) <= 1,
        finishes(run(initial_state(), evs).1) <= 1,
{
    lemma_run(initial_state(), evs, r);
}

/// When a session announces its outcome, no guard holds a handle.
pub proof fn lemma_finish_leaves_nothing_live(evs: Seq<Event>, i: int)
    requires
        0 <= i < evs.len(),
        run(initial_state(), evs).1[i].action is Finish,
    ensures
        !run(initial_state(), evs.take(i + 1)).0.primary_live,
        !run(initial_state(), evs.take(i + 1)).0.secondary_live,
{
    let s = initial_state();
    lemma_split(s, evs, i);
    let before = run(s, evs.take(i));
    lemma_run(s, evs.take(i), Role::Primary);
    lemma_step(before.0, evs[i], Role::Primary);
    let e2 = evs.take(i + 1);
    lemma_split(s, e2, i);
    assert(e2.take(i) =~= evs.take(i));
    assert(e2.skip(i + 1) =~= Seq::<Event>::empty());
}

/// If spawning the primary fails, no kill is ever requested in the session.
pub proof fn lemma_no_primary_no_kill(evs: Seq<Event>, i: int, r: Role)
    requires
        0 <= i < evs.len(),
        run(initial_state(), evs.take(i)).0.phase == Phase::SpawningPrimary,
        evs[i] == Event::PrimarySpawned(false),
    ensures
        kills(run(initial_state(), evs).1, r) == 0,
{
    let s = initial_state();
    lemma_split(s, evs, i);
    let before = run(s, evs.take(i));
    let at = next(before.0, evs[i]);
    lemma_run(s, evs.take(i), r);
    lemma_step(before.0, evs[i], r);
    lemma_run(at.0, evs.skip(i + 1), r);
    lemma_kills_append(before.1, seq![at.1], r);
    lemma_kills_append(before.1 + seq![at.1], run(at.0, evs.skip(i + 1)).1, r);
    assert(kills(seq![at.1], r) == 0) by {
        assert(seq![at.1].drop_first() =~= Seq::<Decision>::empty());
        assert(kills(Seq::<Decision>::empty(), r) == 0);
        assert(at.1.action is Finish);
    }
}

/// Once the primary has been killed, the secondary is never killed after
/// it: the secondary's kill, if any, comes first.
pub proof fn lemma_secondary_killed_first(evs: Seq<Event>, i: int, j: int)
    requires
        0 <= i < j < evs.len(),
        run(initial_state(), evs).1[i].action == Action::Kill(Role::Primary),
    ensures
        run(initial_state(), evs).1[j].action != Action::Kill(Role::Secondary),
{
    let s = initial_state();
    lemma_split(s, evs, i);
    let before = run(s, evs.take(i));
    let at = next(before.0, evs[i]);
    let after = run(at.0, evs.skip(i + 1));
    lemma_run(s, evs.take(i), Role::Secondary);
    lemma_step(before.0, evs[i], Role::Secondary);
    assert((before.1 + seq![at.1] + after.1)[i] == at.1);
    lemma_run(at.0, evs.skip(i + 1), Role::Secondary);
    lemma_no_kill_at(after.1, Role::Secondary, j - i - 1);
    assert((before.1 + seq![at.1] + after.1)[j] == after.1[j - i - 1]);
}

/// Once cancellation has been observed, it stays observed, and the flag is
/// never read again.
pub proof fn lemma_cancel_latched(evs: Seq<Event>, i: int, j: int)
    requires
        0 <= i <= j <= evs.len(),
        run(initial_state(), evs.take(i)).0.cancelled,
    ensures
        run(initial_state(), evs.take(j)).0.cancelled,
        forall|k: int|
            i <= k < evs.len() ==> #[trigger] run(initial_state(), evs).1[k].action
                != Action::ReadCancel,
{
    let s = initial_state();
    let mid = run(s, evs.take(i)).0;
    lemma_run(s, evs.take(i), Role::Primary);
    assert(evs.take(j) =~= evs.take(i) + evs.subrange(i, j));
    lemma_run_append(s, evs.take(i), evs.subrange(i, j));
    lemma_run(mid, evs.subrange(i, j), Role::Primary);
    assert(evs =~= evs.take(i) + evs.skip(i));
    lemma_run_append(s, evs.take(i), evs.skip(i));
    lemma_run_len(s, evs.take(i));
    lemma_run_len(mid, evs.skip(i));
    assert forall|k: int| i <= k < evs.len() implies #[trigger] run(s, evs).1[k].action
        != Action::ReadCancel by {
        lemma_no_read_after_cancel(mid, evs.skip(i), k - i);
        assert(run(s, evs).1[k] == run(mid, evs.skip(i)).1[k - i]);
    }
}

/// Whether two event sequences differ at most in what the kills reaped.
pub open spec fn same_but_kill_results(a: Seq<Event>, b: Seq<Event>) -> bool {
    &&& a.len() == b.len()
    &&& forall|k: int|
        0 <= k < a.len() ==> (a[k] == b[k] || (a[k] is Killed && b[k] is Killed))
}

/// What a kill reaped (for instance the secondary's exit status) changes
/// neither the decisions nor the outcome: a session is determined by the
/// other events alone.
pub proof fn lemma_kill_results_irrelevant(s: Supervisor, a: Seq<Event>, b: Seq<Event>)
    requires
        same_but_kill_results(a, b),
    ensures
        run(s, a) == run(s, b),
    decreases a.len(),
{
    if a.len() > 0 {
        assert(next(s, a[0]) == next(s, b[0]));
        lemma_kill_results_irrelevant(next(s, a[0]).0, a.drop_first(), b.drop_first());
    }
}

} // verus!
