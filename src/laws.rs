use vstd::prelude::*;
use crate::coordinator::{
    after_animation, after_fail, after_record, after_reset, after_start, after_take_dirty,
    composite_record, inv, is_current, lemma_progress_for, start_granted, CoordinatorModel,
    TestStatus,
};
use crate::scoring::PhaseRecord;

verus! {

/// One call into a `TestCoordinator`, as a value.
pub enum Event {
    Start { now_ms: u64 },
    Record { generation: u64, outcome: Option<PhaseRecord> },
    Fail { generation: u64, message: Seq<char> },
    Animate,
    TakeDirty,
    Reset,
}

/// The coordinator after `e`, as the method of that name leaves it.
pub open spec fn apply(m: CoordinatorModel, e: Event) -> CoordinatorModel {
    match e {
        Event::Start { now_ms } => after_start(m, now_ms),
        Event::Record { generation, outcome } => after_record(m, generation, outcome),
        Event::Fail { generation, message } => after_fail(m, generation, message),
        Event::Animate => after_animation(m),
        Event::TakeDirty => after_take_dirty(m),
        Event::Reset => after_reset(m),
    }
}

/// The coordinator after the calls `es`, in order.
pub open spec fn run(m: CoordinatorModel, es: Seq<Event>) -> CoordinatorModel
    decreases es.len(),
{
    if es.len() == 0 {
        m
    } else {
        apply(run(m, es.drop_last()), es.last())
    }
}

/// Whether `e` may begin a new run.
pub open spec fn begins_run(e: Event) -> bool {
    e is Start || e is Reset
}

/// Every call keeps the coordinator's invariant.
pub proof fn lemma_apply_inv(m: CoordinatorModel, e: Event)
    requires
        inv(m),
    ensures
        inv(apply(m, e)),
{
    match e {
        Event::Start { now_ms } => {
            if !m.guard {
                let n = m.phase_names.len() as int;
                vstd::arithmetic::div_mod::lemma_basic_div(200 * 0 + n, 2 * n);
            }
        },
        Event::Record { generation, outcome } => {
            if is_current(m, generation) && m.state.completed < m.state.total_phases {
                lemma_progress_for(
                    m.state.completed as int,
                    m.state.completed + 1,
                    m.state.total_phases as int,
                );
            }
        },
        _ => {},
    }
}

/// The invariant holds after any sequence of calls.
pub proof fn lemma_run_inv(m: CoordinatorModel, es: Seq<Event>)
    requires
        inv(m),
    ensures
        inv(run(m, es)),
    decreases es.len(),
{
    if es.len() > 0 {
        lemma_run_inv(m, es.drop_last());
        lemma_apply_inv(run(m, es.drop_last()), es.last());
    }
}

proof fn lemma_step_progress(m: CoordinatorModel, e: Event)
    requires
        inv(m),
        !begins_run(e),
        apply(m, e).state.status != TestStatus::Failed,
    ensures
        m.state.status != TestStatus::Failed,
        m.state.progress <= apply(m, e).state.progress,
{
    if let Event::Record { generation, outcome } = e {
        if is_current(m, generation) && m.state.completed < m.state.total_phases {
            lemma_progress_for(
                m.state.completed as int,
                m.state.completed + 1,
                m.state.total_phases as int,
            );
        }
    }
}

/// Within one run, progress never goes down: over calls that start no new run, the
/// progress read after the first `i` calls is at most that read after the first `j`
/// calls, for `i <= j`, unless the run has failed by then (failing drops progress
/// to 0).
pub proof fn law_progress_monotonic(m: CoordinatorModel, es: Seq<Event>, i: int, j: int)
    requires
        inv(m),
        forall|k: int| 0 <= k < es.len() ==> !begins_run(#[trigger] es[k]),
        0 <= i <= j <= es.len(),
        run(m, es.take(j)).state.status != TestStatus::Failed,
    ensures
        run(m, es.take(i)).state.progress <= run(m, es.take(j)).state.progress,
    decreases j - i,
{
    if i < j {
        let prev = es.take(j - 1);
        assert(es.take(j).drop_last() =~= prev);
        assert(es.take(j).last() == es[j - 1]);
        lemma_run_inv(m, prev);
        lemma_step_progress(run(m, prev), es[j - 1]);
        law_progress_monotonic(m, es, i, j - 1);
    }
}

/// How many of the starts at times `nows`, made one after another, were granted.
pub open spec fn granted_starts(m: CoordinatorModel, nows: Seq<u64>) -> nat
    decreases nows.len(),
{
    if nows.len() == 0 {
        0
    } else {
        (if start_granted(m) {
            1nat
        } else {
            0nat
        }) + granted_starts(after_start(m, nows[0]), nows.drop_first())
    }
}

proof fn lemma_no_start_while_running(m: CoordinatorModel, nows: Seq<u64>)
    requires
        m.guard,
    ensures
        granted_starts(m, nows) == 0,
    decreases nows.len(),
{
    if nows.len() > 0 {
        lemma_no_start_while_running(after_start(m, nows[0]), nows.drop_first());
    }
}

/// Of any number (at least one) of start requests made while no run is in progress,
/// exactly one starts a run; the others change nothing.
pub proof fn law_single_start(m: CoordinatorModel, nows: Seq<u64>)
    requires
        inv(m),
        !m.guard,
        nows.len() >= 1,
    ensures
        granted_starts(m, nows) == 1,
{
    lemma_no_start_while_running(after_start(m, nows[0]), nows.drop_first());
}

/// Every call that changes the state raises the redraw flag, so that the next take
/// of the flag returns true and the one after it false; a call that changes no state
/// leaves the flag as it was.
pub proof fn law_dirty_round_trip(m: CoordinatorModel, e: Event)
    requires
        inv(m),
        !(e is TakeDirty),
    ensures
        apply(m, e).state != m.state ==> {
            &&& apply(m, e).dirty
            &&& !after_take_dirty(apply(m, e)).dirty
            &&& after_take_dirty(apply(m, e)).state == apply(m, e).state
        },
        apply(m, e).state == m.state ==> apply(m, e).dirty == m.dirty,
{
    match e {
        Event::Start { now_ms } => {},
        Event::Record { generation, outcome } => {
            if is_current(m, generation) && m.state.completed < m.state.total_phases {
                assert(apply(m, e).state.completed != m.state.completed);
            }
        },
        Event::Fail { generation, message } => {},
        Event::Animate => {
            if m.state.status == TestStatus::Running {
                assert(apply(m, e).state.animation_frame != m.state.animation_frame);
            }
        },
        Event::Reset => {
            assert(apply(m, e).state.generation != m.state.generation);
        },
        Event::TakeDirty => {},
    }
}

/// A run whose phase fails ends Failed with the message, clears the guard, and a
/// start made right after it is granted and begins a new run.
pub proof fn law_failure_contained(m: CoordinatorModel, generation: u64, message: Seq<char>, now_ms: u64)
    requires
        inv(m),
        is_current(m, generation),
    ensures
        after_fail(m, generation, message).state.status == TestStatus::Failed,
        after_fail(m, generation, message).state.error == Some(message),
        !after_fail(m, generation, message).guard,
        start_granted(after_fail(m, generation, message)),
        after_start(after_fail(m, generation, message), now_ms).state.status == TestStatus::Running,
        inv(after_fail(m, generation, message)),
{
    lemma_apply_inv(m, Event::Fail { generation, message });
}

/// The coordinator after run `generation` records each of `outs` in order.
pub open spec fn record_all(m: CoordinatorModel, generation: u64, outs: Seq<PhaseRecord>) -> CoordinatorModel
    decreases outs.len(),
{
    if outs.len() == 0 {
        m
    } else {
        after_record(record_all(m, generation, outs.drop_last()), generation, Some(outs.last()))
    }
}

proof fn lemma_record_prefix(s: CoordinatorModel, generation: u64, outs: Seq<PhaseRecord>, k: int)
    requires
        inv(s),
        is_current(s, generation),
        s.state.completed == 0,
        s.state.results.len() == 0,
        outs.len() == s.state.total_phases,
        0 <= k < outs.len(),
    ensures
        is_current(record_all(s, generation, outs.take(k)), generation),
        record_all(s, generation, outs.take(k)).state.completed == k,
        record_all(s, generation, outs.take(k)).state.results == outs.take(k),
        record_all(s, generation, outs.take(k)).weights == s.weights,
        record_all(s, generation, outs.take(k)).composite_name == s.composite_name,
        record_all(s, generation, outs.take(k)).state.total_phases == s.state.total_phases,
    decreases k,
{
    if k == 0 {
        assert(outs.take(0) =~= Seq::<PhaseRecord>::empty());
    } else {
        lemma_record_prefix(s, generation, outs, k - 1);
        assert(outs.take(k).drop_last() =~= outs.take(k - 1));
        assert(outs.take(k).last() == outs[k - 1]);
        assert(outs.take(k - 1).push(outs[k - 1]) =~= outs.take(k));
    }
}

/// A run in which every phase returns a result ends Completed at 100%, with the
/// phases' results in the order the phases ran, followed by the composite row.
pub proof fn law_results_in_order(m: CoordinatorModel, now_ms: u64, outs: Seq<PhaseRecord>)
    requires
        inv(m),
        start_granted(m),
        outs.len() == m.phase_names.len(),
    ensures
        ({
            let s = after_start(m, now_ms);
            let f = record_all(s, s.state.generation, outs);
            &&& f.state.status == TestStatus::Completed
            &&& f.state.progress == 100
            &&& !f.guard
            &&& f.state.results.len() == outs.len() + 1
            &&& f.state.results.take(outs.len() as int) == outs
            &&& f.state.results.last() == composite_record(outs, m.weights, m.composite_name)
        }),
{
    let s = after_start(m, now_ms);
    let g = s.state.generation;
    lemma_apply_inv(m, Event::Start { now_ms });
    let n = outs.len() as int;
    lemma_record_prefix(s, g, outs, n - 1);
    assert(outs.drop_last() =~= outs.take(n - 1));
    let p = record_all(s, g, outs.take(n - 1));
    assert(outs.take(n - 1).push(outs.last()) =~= outs);
    let f = record_all(s, g, outs);
    assert(f == after_record(p, g, Some(outs.last())));
    assert(f.state.results.take(n) =~= outs);
}

} // verus!
