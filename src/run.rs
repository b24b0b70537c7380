use vstd::prelude::*;

use vstd::arithmetic::div_mod::{
    lemma_fundamental_div_mod, lemma_fundamental_div_mod_converse, lemma_mod_pos_bound,
};

use crate::schedule::{
    Phase, Span, SessionView, deadline_spec, interval_ms_of, record_spec, session_view_of,
    start_spec, tick_spec,
};

verus! {

/// How many of the first `k` sends fail, when send `i` succeeds exactly
/// where `ok(i)` holds.
pub open spec fn failed_count(ok: spec_fn(nat) -> bool, k: nat) -> nat
    decreases k,
{
    if k == 0 {
        0
    } else {
        failed_count(ok, (k - 1) as nat) + if ok((k - 1) as nat) {
            0nat
        } else {
            1nat
        }
    }
}

/// A session driven for `n` ticks by a clock whose tick `k` is observed
/// `late(k)` nanoseconds after it is due, each send answered at once, send
/// `k` succeeding exactly where `ok(k)` holds.
pub open spec fn run_late(
    v: SessionView,
    ok: spec_fn(nat) -> bool,
    late: spec_fn(nat) -> nat,
    n: nat,
) -> SessionView
    decreases n,
{
    if n == 0 {
        v
    } else {
        let w = tick_spec(v, deadline_spec(v) + late(v.sends)).0;
        run_late(record_spec(w, ok(v.sends)), ok, late, (n - 1) as nat)
    }
}

/// A session driven for `n` ticks by an ideal clock: each tick is observed
/// exactly when it is due.
pub open spec fn run_on_time(v: SessionView, ok: spec_fn(nat) -> bool, n: nat) -> SessionView {
    run_late(v, ok, |k: nat| 0nat, n)
}

/// The number of ticks after which an ideal run is certainly over.
pub open spec fn ticks_enough(frequency: nat, budget: Span) -> nat {
    budget.total_ns() / (interval_ms_of(frequency) * 1000000) + 2
}

proof fn lemma_below_budget(s: int, i: int, d: int)
    requires
        i > 0,
        d >= 0,
        s >= 1,
        (s - 1) * i < d,
    ensures
        s <= d / i + 1,
{
    lemma_fundamental_div_mod(d, i);
    lemma_mod_pos_bound(d, i);
    let q: int = d / i;
    let r: int = d % i;
    assert(s - 1 <= q) by (nonlinear_arith)
        requires
            (s - 1) * i < d,
            d == i * q + r,
            r < i,
            i > 0,
    ;
}

proof fn lemma_reaches_budget(s: int, i: int, d: int)
    requires
        i > 0,
        d >= 0,
        s >= 0,
        (s + 1) * i > d,
    ensures
        s >= d / i,
{
    lemma_fundamental_div_mod(d, i);
    lemma_mod_pos_bound(d, i);
    let q: int = d / i;
    let r: int = d % i;
    assert(s >= q) by (nonlinear_arith)
        requires
            (s + 1) * i > d,
            d == i * q + r,
            r >= 0,
            i > 0,
    ;
}

proof fn lemma_stopped_run(
    v: SessionView,
    ok: spec_fn(nat) -> bool,
    late: spec_fn(nat) -> nat,
    n: nat,
)
    requires
        v.phase == Phase::Stopped,
        !v.in_flight,
    ensures
        run_late(v, ok, late, n) == v,
    decreases n,
{
    if n > 0 {
        lemma_stopped_run(v, ok, late, (n - 1) as nat);
    }
}

proof fn lemma_run_late(
    v: SessionView,
    ok: spec_fn(nat) -> bool,
    late: spec_fn(nat) -> nat,
    n: nat,
)
    requires
        v.phase == Phase::Running,
        v.interval > 0,
        forall|k: nat| #[trigger] late(k) < v.interval,
        !v.in_flight,
        v.next_due == v.sends * v.interval,
        v.failures == failed_count(ok, v.sends),
        v.sends == 0 || (v.sends - 1) * v.interval < v.budget,
        n + v.sends >= v.budget / v.interval + 2,
    ensures
        ({
            let w = run_late(v, ok, late, n);
            &&& w.phase == Phase::Stopped
            &&& w.interval == v.interval
            &&& w.budget == v.budget
            &&& w.next_due == w.sends * w.interval
            &&& w.sends * w.interval + late(w.sends) >= w.budget
            &&& w.sends == 0 || (w.sends - 1) * w.interval < w.budget
            &&& w.failures == failed_count(ok, w.sends)
        }),
    decreases n,
{
    if v.sends > 0 {
        lemma_below_budget(v.sends as int, v.interval as int, v.budget as int);
    }
    let e = deadline_spec(v) + late(v.sends);
    let w = tick_spec(v, e).0;
    let x = record_spec(w, ok(v.sends));
    if e >= v.budget {
        lemma_stopped_run(x, ok, late, (n - 1) as nat);
    } else {
        lemma_fundamental_div_mod_converse(
            e as int,
            v.interval as int,
            v.sends as int,
            late(v.sends) as int,
        );
        assert(x.next_due == x.sends * x.interval) by (nonlinear_arith)
            requires
                x.next_due == (e / v.interval + 1) * v.interval,
                e / v.interval == v.sends,
                x.sends == v.sends + 1,
                x.interval == v.interval,
        ;
        lemma_run_late(x, ok, late, (n - 1) as nat);
    }
}

/// A session started for a frequency of at most one send per millisecond,
/// whose ticks are each observed less than one interval after they are due,
/// stops by itself after between `budget / interval` and
/// `budget / interval + 1` sends, whatever the sends return. Its last tick,
/// the one that stops it, is observed no earlier than the budget and less
/// than one interval, plus that tick's lateness, after it.
pub proof fn lemma_send_count(
    frequency: nat,
    budget: Span,
    ok: spec_fn(nat) -> bool,
    late: spec_fn(nat) -> nat,
    n: nat,
)
    requires
        0 < frequency <= 60000,
        forall|k: nat| #[trigger] late(k) < interval_ms_of(frequency) * 1000000,
        n >= ticks_enough(frequency, budget),
    ensures
        ({
            let w = run_late(start_spec(session_view_of(frequency, budget)), ok, late, n);
            let i = interval_ms_of(frequency) * 1000000;
            let d = budget.total_ns();
            let q = d / i;
            let stop_time = deadline_spec(w) + late(w.sends);
            &&& w.phase == Phase::Stopped
            &&& q <= w.sends <= q + 1
            &&& d <= stop_time < d + i + late(w.sends)
        }),
{
    let v = start_spec(session_view_of(frequency, budget));
    assert(interval_ms_of(frequency) >= 1) by (nonlinear_arith)
        requires
            0 < frequency <= 60000,
            interval_ms_of(frequency) == 60000nat / frequency,
    ;
    lemma_run_late(v, ok, late, n);
    let w = run_late(v, ok, late, n);
    assert((w.sends + 1) * v.interval > v.budget) by (nonlinear_arith)
        requires
            w.sends * v.interval + late(w.sends) >= v.budget,
            late(w.sends) < v.interval,
    ;
    lemma_reaches_budget(w.sends as int, v.interval as int, v.budget as int);
    if w.sends > 0 {
        lemma_below_budget(w.sends as int, v.interval as int, v.budget as int);
        assert(w.sends * v.interval < v.budget + v.interval) by (nonlinear_arith)
            requires
                (w.sends - 1) * v.interval < v.budget,
        ;
    }
}

/// Two sessions that differ at most in their failure counts.
pub open spec fn same_schedule(a: SessionView, b: SessionView) -> bool {
    &&& a.interval == b.interval
    &&& a.budget == b.budget
    &&& a.phase == b.phase
    &&& a.sends == b.sends
    &&& a.in_flight == b.in_flight
    &&& a.next_due == b.next_due
}

proof fn lemma_same_schedule_runs(
    a: SessionView,
    b: SessionView,
    ok_a: spec_fn(nat) -> bool,
    ok_b: spec_fn(nat) -> bool,
    late: spec_fn(nat) -> nat,
    n: nat,
)
    requires
        same_schedule(a, b),
    ensures
        same_schedule(run_late(a, ok_a, late, n), run_late(b, ok_b, late, n)),
    decreases n,
{
    if n > 0 {
        let wa = record_spec(tick_spec(a, deadline_spec(a) + late(a.sends)).0, ok_a(a.sends));
        let wb = record_spec(tick_spec(b, deadline_spec(b) + late(b.sends)).0, ok_b(b.sends));
        lemma_same_schedule_runs(wa, wb, ok_a, ok_b, late, (n - 1) as nat);
    }
}

/// What a send returns never changes the schedule: under the same clock,
/// after any number of ticks, two copies of a session whose sends succeed
/// and fail differently stand in the same phase, with the same number of
/// sends and the same next due time; only their failure counts differ.
pub proof fn lemma_outcomes_do_not_change_schedule(
    v: SessionView,
    ok_a: spec_fn(nat) -> bool,
    ok_b: spec_fn(nat) -> bool,
    late: spec_fn(nat) -> nat,
    n: nat,
)
    ensures
        same_schedule(run_late(v, ok_a, late, n), run_late(v, ok_b, late, n)),
{
    lemma_same_schedule_runs(v, v, ok_a, ok_b, late, n);
}

/// A session whose every send fails still runs to its full duration: it
/// stops by itself after as many sends as a session whose every send
/// succeeds, and every failure is counted.
pub proof fn lemma_failures_do_not_end_session(frequency: nat, budget: Span, n: nat)
    requires
        0 < frequency <= 60000,
        n >= ticks_enough(frequency, budget),
    ensures
        ({
            let v = start_spec(session_view_of(frequency, budget));
            let failing = run_on_time(v, |i: nat| false, n);
            let succeeding = run_on_time(v, |i: nat| true, n);
            &&& failing.phase == Phase::Stopped
            &&& succeeding.phase == Phase::Stopped
            &&& failing.sends == succeeding.sends
            &&& failing.failures == failing.sends
            &&& succeeding.failures == 0
        }),
{
    let v = start_spec(session_view_of(frequency, budget));
    let never = |i: nat| false;
    let always = |i: nat| true;
    let on_time = |k: nat| 0nat;
    assert(interval_ms_of(frequency) >= 1) by (nonlinear_arith)
        requires
            0 < frequency <= 60000,
            interval_ms_of(frequency) == 60000nat / frequency,
    ;
    lemma_run_late(v, never, on_time, n);
    lemma_run_late(v, always, on_time, n);
    lemma_outcomes_do_not_change_schedule(v, never, always, on_time, n);
    let failing = run_late(v, never, on_time, n);
    let succeeding = run_late(v, always, on_time, n);
    lemma_failed_count_constant(failing.sends);
    lemma_failed_count_constant(succeeding.sends);
}

proof fn lemma_failed_count_constant(k: nat)
    ensures
        failed_count(|i: nat| false, k) == k,
        failed_count(|i: nat| true, k) == 0,
    decreases k,
{
    if k > 0 {
        lemma_failed_count_constant((k - 1) as nat);
    }
}

} // verus!
