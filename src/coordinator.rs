use vstd::prelude::*;
use crate::scoring::{
    aggregate, copy_results, records_of, weighted_mean, PhaseRecord, PhaseResult, PhaseWeight,
};

verus! {

/// Where a test run stands.
#[derive(Clone, Copy, Debug, PartialEq, Eq, Structural)]
pub enum TestStatus {
    Idle,
    Running,
    Completed,
    Failed,
}

/// The snapshot of one test kind that the UI reads.
pub struct TestState {
    pub status: TestStatus,
    /// Percent done, 0 to 100.
    pub progress: u8,
    pub current_phase_name: String,
    pub current_phase_index: usize,
    pub total_phases: usize,
    /// Phases finished in this run, with or without a result.
    pub completed_phases: usize,
    pub results: Vec<PhaseResult>,
    pub running_primary_estimate: u32,
    pub running_secondary_estimate: u32,
    pub error: Option<String>,
    /// Monotonic clock reading, in milliseconds, when the run started.
    pub started_at_ms: Option<u64>,
    pub animation_frame: u8,
    /// Counts the runs started so far; a worker writes only under its own.
    pub generation: u64,
}

/// A `TestState` as a mathematical value.
pub struct StateModel {
    pub status: TestStatus,
    pub progress: u8,
    pub phase_name: Seq<char>,
    pub phase_index: usize,
    pub total_phases: usize,
    pub completed: usize,
    pub results: Seq<PhaseRecord>,
    pub primary_estimate: u32,
    pub secondary_estimate: u32,
    pub error: Option<Seq<char>>,
    pub started_at_ms: Option<u64>,
    pub animation_frame: u8,
    pub generation: u64,
}

pub open spec fn text_opt(s: Option<String>) -> Option<Seq<char>> {
    match s {
        Some(t) => Some(t@),
        None => None,
    }
}

impl View for TestState {
    type V = StateModel;

    open spec fn view(&self) -> StateModel {
        StateModel {
            status: self.status,
            progress: self.progress,
            phase_name: self.current_phase_name@,
            phase_index: self.current_phase_index,
            total_phases: self.total_phases,
            completed: self.completed_phases,
            results: records_of(self.results@),
            primary_estimate: self.running_primary_estimate,
            secondary_estimate: self.running_secondary_estimate,
            error: text_opt(self.error),
            started_at_ms: self.started_at_ms,
            animation_frame: self.animation_frame,
            generation: self.generation,
        }
    }
}

fn copy_text_opt(s: &Option<String>) -> (r: Option<String>)
    ensures
        text_opt(r) == text_opt(*s),
{
    match s {
        Some(t) => Some(t.clone()),
        None => None,
    }
}

impl TestState {
    /// The state of a kind whose test has never run.
    pub fn idle(total_phases: usize, generation: u64) -> (r: TestState)
        ensures
            r@ == idle_model(total_phases, generation),
    {
        let r = TestState {
            status: TestStatus::Idle,
            progress: 0,
            current_phase_name: String::new(),
            current_phase_index: 0,
            total_phases,
            completed_phases: 0,
            results: Vec::new(),
            running_primary_estimate: 0,
            running_secondary_estimate: 0,
            error: None,
            started_at_ms: None,
            animation_frame: 0,
            generation,
        };
        assert(records_of(r.results@) =~= Seq::empty());
        r
    }

    /// An independent copy with the same contents.
    pub fn snapshot(&self) -> (r: TestState)
        ensures
            r@ == self@,
    {
        TestState {
            status: self.status,
            progress: self.progress,
            current_phase_name: self.current_phase_name.clone(),
            current_phase_index: self.current_phase_index,
            total_phases: self.total_phases,
            completed_phases: self.completed_phases,
            results: copy_results(&self.results),
            running_primary_estimate: self.running_primary_estimate,
            running_secondary_estimate: self.running_secondary_estimate,
            error: copy_text_opt(&self.error),
            started_at_ms: self.started_at_ms,
            animation_frame: self.animation_frame,
            generation: self.generation,
        }
    }

    /// Milliseconds since the run started, or `None` before any run.
    pub fn elapsed_ms(&self, now_ms: u64) -> (r: Option<u64>)
        ensures
            r == match self.started_at_ms {
                Some(t) => Some(if now_ms >= t { (now_ms - t) as u64 } else { 0u64 }),
                None => None::<u64>,
            },
    {
        match self.started_at_ms {
            Some(t) => Some(if now_ms >= t { now_ms - t } else { 0 }),
            None => None,
        }
    }
}

/// The fixed, ordered phase list of one test kind, with the weight table that the
/// composite score uses and the name under which the composite is reported.
pub struct PhasePlan {
    pub phase_names: Vec<String>,
    pub weights: Vec<PhaseWeight>,
    pub composite_name: String,
}

pub open spec fn names_of(v: Seq<String>) -> Seq<Seq<char>> {
    v.map_values(|s: String| s@)
}

/// A `TestCoordinator` as a mathematical value.
pub struct CoordinatorModel {
    pub state: StateModel,
    /// Set by every change of `state`, cleared by the UI when it reads it.
    pub dirty: bool,
    /// Set while a worker runs for this kind.
    pub guard: bool,
    pub phase_names: Seq<Seq<char>>,
    pub weights: Seq<PhaseWeight>,
    pub composite_name: Seq<char>,
}

pub open spec fn idle_model(total: usize, generation: u64) -> StateModel {
    StateModel {
        status: TestStatus::Idle,
        progress: 0,
        phase_name: Seq::empty(),
        phase_index: 0,
        total_phases: total,
        completed: 0,
        results: Seq::empty(),
        primary_estimate: 0,
        secondary_estimate: 0,
        error: None,
        started_at_ms: None,
        animation_frame: 0,
        generation,
    }
}

/// The generation after `g`; it wraps to 0 after `u64::MAX`.
pub open spec fn next_generation(g: u64) -> u64 {
    if g == u64::MAX {
        0
    } else {
        (g + 1) as u64
    }
}

/// Percent shown once `done` of `total` phases have finished: rounded to the
/// nearest integer and held at 99 until the last phase is done, then 100.
pub open spec fn progress_for(done: int, total: int) -> int {
    if done >= total {
        100
    } else {
        let p = (200 * done + total) / (2 * total);
        if p > 99 {
            99
        } else {
            p
        }
    }
}

/// Sum of the durations of `rs`.
pub open spec fn total_duration(rs: Seq<PhaseRecord>) -> int
    decreases rs.len(),
{
    if rs.len() == 0 {
        0
    } else {
        total_duration(rs.drop_last()) + rs.last().duration_ms
    }
}

/// The synthetic row appended after the last phase: the aggregate of all results,
/// with their total duration (capped at `u64::MAX`).
pub open spec fn composite_record(
    rs: Seq<PhaseRecord>,
    weights: Seq<PhaseWeight>,
    name: Seq<char>,
) -> PhaseRecord {
    PhaseRecord {
        name,
        primary: weighted_mean(rs, weights, true) as u32,
        secondary: weighted_mean(rs, weights, false) as u32,
        duration_ms: if total_duration(rs) > u64::MAX {
            u64::MAX
        } else {
            total_duration(rs) as u64
        },
        details: Seq::empty(),
    }
}

/// `TestCoordinator::start_test` grants a run exactly when no worker runs.
pub open spec fn start_granted(m: CoordinatorModel) -> bool {
    !m.guard
}

pub open spec fn after_start(m: CoordinatorModel, now_ms: u64) -> CoordinatorModel {
    if m.guard {
        m
    } else {
        CoordinatorModel {
            state: StateModel {
                status: TestStatus::Running,
                progress: 0,
                phase_name: m.phase_names[0],
                phase_index: 0,
                total_phases: m.phase_names.len() as usize,
                completed: 0,
                results: Seq::empty(),
                primary_estimate: 0,
                secondary_estimate: 0,
                error: None,
                started_at_ms: Some(now_ms),
                animation_frame: 0,
                generation: next_generation(m.state.generation),
            },
            dirty: true,
            guard: true,
            ..m
        }
    }
}

/// Whether a write tagged `generation` belongs to the run in progress.
pub open spec fn is_current(m: CoordinatorModel, generation: u64) -> bool {
    m.state.status == TestStatus::Running && m.state.generation == generation
}

pub open spec fn after_record(
    m: CoordinatorModel,
    generation: u64,
    outcome: Option<PhaseRecord>,
) -> CoordinatorModel {
    if !is_current(m, generation) || m.state.completed >= m.state.total_phases {
        m
    } else {
        let results = match outcome {
            Some(r) => m.state.results.push(r),
            None => m.state.results,
        };
        let done = m.state.completed + 1;
        let total = m.state.total_phases;
        if done < total {
            CoordinatorModel {
                state: StateModel {
                    progress: progress_for(done, total as int) as u8,
                    phase_name: m.phase_names[done],
                    phase_index: done as usize,
                    completed: done as usize,
                    results,
                    primary_estimate: weighted_mean(results, m.weights, true) as u32,
                    secondary_estimate: weighted_mean(results, m.weights, false) as u32,
                    ..m.state
                },
                dirty: true,
                ..m
            }
        } else {
            CoordinatorModel {
                state: StateModel {
                    status: TestStatus::Completed,
                    progress: 100,
                    completed: done as usize,
                    results: results.push(composite_record(results, m.weights, m.composite_name)),
                    primary_estimate: weighted_mean(results, m.weights, true) as u32,
                    secondary_estimate: weighted_mean(results, m.weights, false) as u32,
                    ..m.state
                },
                dirty: true,
                guard: false,
                ..m
            }
        }
    }
}

pub open spec fn after_fail(m: CoordinatorModel, generation: u64, message: Seq<char>) -> CoordinatorModel {
    if !is_current(m, generation) {
        m
    } else {
        CoordinatorModel {
            state: StateModel {
                status: TestStatus::Failed,
                progress: 0,
                results: Seq::empty(),
                error: Some(message),
                ..m.state
            },
            dirty: true,
            guard: false,
            ..m
        }
    }
}

pub open spec fn after_animation(m: CoordinatorModel) -> CoordinatorModel {
    if m.state.status != TestStatus::Running {
        m
    } else {
        CoordinatorModel {
            state: StateModel { animation_frame: ((m.state.animation_frame + 1) % 8) as u8, ..m.state },
            dirty: true,
            ..m
        }
    }
}

pub open spec fn after_reset(m: CoordinatorModel) -> CoordinatorModel {
    CoordinatorModel {
        state: idle_model(m.state.total_phases, next_generation(m.state.generation)),
        dirty: true,
        guard: false,
        ..m
    }
}

pub open spec fn after_take_dirty(m: CoordinatorModel) -> CoordinatorModel {
    CoordinatorModel { dirty: false, ..m }
}

/// What holds of a coordinator at every read.
pub open spec fn inv(m: CoordinatorModel) -> bool {
    &&& m.phase_names.len() >= 1
    &&& m.state.total_phases == m.phase_names.len()
    &&& m.state.progress <= 100
    &&& m.state.completed <= m.state.total_phases
    &&& m.state.animation_frame < 8
    &&& (m.guard <==> m.state.status == TestStatus::Running)
    &&& (m.state.error is Some <==> m.state.status == TestStatus::Failed)
    &&& (m.state.status == TestStatus::Failed ==> m.state.results.len() == 0)
    &&& (m.state.status == TestStatus::Running ==> {
        &&& m.state.completed < m.state.total_phases
        &&& m.state.progress == progress_for(m.state.completed as int, m.state.total_phases as int)
        &&& m.state.results.len() <= m.state.completed
        &&& m.state.phase_index == m.state.completed
        &&& m.state.phase_name == m.phase_names[m.state.completed as int]
    })
}

/// The live state of one test kind (CPU, disk, ...): the latest snapshot of its run,
/// the flag that tells the UI to redraw and the guard that keeps a second worker
/// from starting. Every change goes through its methods; the application keeps it
/// behind one lock.
pub struct TestCoordinator {
    plan: PhasePlan,
    state: TestState,
    dirty: bool,
    started: bool,
}

impl View for TestCoordinator {
    type V = CoordinatorModel;

    closed spec fn view(&self) -> CoordinatorModel {
        CoordinatorModel {
            state: self.state@,
            dirty: self.dirty,
            guard: self.started,
            phase_names: names_of(self.plan.phase_names@),
            weights: self.plan.weights@,
            composite_name: self.plan.composite_name@,
        }
    }
}

/// Rounded percentage after `done` of `total` phases (see `progress_for`).
pub fn phase_progress(done: usize, total: usize) -> (r: u8)
    requires
        total >= 1,
        done <= total,
    ensures
        r as int == progress_for(done as int, total as int),
{
    if done >= total {
        100
    } else {
        let p: u128 = (200 * done as u128 + total as u128) / (2 * total as u128);
        if p > 99 {
            99
        } else {
            p as u8
        }
    }
}

/// The composite row of `results` (see `composite_record`).
pub fn composite_of(results: &Vec<PhaseResult>, weights: &Vec<PhaseWeight>, name: &String) -> (r:
    PhaseResult)
    ensures
        r@ == composite_record(records_of(results@), weights@, name@),
{
    let (p, s) = aggregate(results, weights);
    let ghost recs = records_of(results@);
    let mut total: u64 = 0;
    let mut capped = false;
    let mut i: usize = 0;
    while i < results.len()
        invariant
            i <= results.len(),
            recs == records_of(results@),
            capped ==> total_duration(recs.subrange(0, i as int)) > u64::MAX,
            !capped ==> total as int == total_duration(recs.subrange(0, i as int)),
        decreases results.len() - i,
    {
        proof {
            let prefix = recs.subrange(0, i as int + 1);
            assert(prefix.drop_last() =~= recs.subrange(0, i as int));
            assert(prefix.last() == results@[i as int]@);
        }
        let d = results[i].duration_ms;
        if !capped {
            if total > u64::MAX - d {
                capped = true;
            } else {
                total = total + d;
            }
        }
        i = i + 1;
    }
    assert(recs.subrange(0, results.len() as int) =~= recs);
    let r = PhaseResult {
        name: name.clone(),
        primary_score: p,
        secondary_score: s,
        duration_ms: if capped { u64::MAX } else { total },
        details: Vec::new(),
    };
    proof {
        details_view_empty(r.details@);
    }
    r
}

proof fn details_view_empty(d: Seq<(String, String)>)
    requires
        d.len() == 0,
    ensures
        crate::scoring::details_view(d) == Seq::<(Seq<char>, Seq<char>)>::empty(),
{
    assert(crate::scoring::details_view(d) =~= Seq::<(Seq<char>, Seq<char>)>::empty());
}


pub open spec fn outcome_record(o: Option<PhaseResult>) -> Option<PhaseRecord> {
    match o {
        Some(r) => Some(r@),
        None => None,
    }
}

/// The rounded share of finished phases stays within 0..=100 and never falls as
/// more phases finish.
pub proof fn lemma_progress_for(done: int, later: int, total: int)
    requires
        total >= 1,
        0 <= done <= later,
    ensures
        0 <= progress_for(done, total) <= 100,
        progress_for(done, total) <= progress_for(later, total),
{
    if later < total {
        assert((200 * done + total) / (2 * total) <= (200 * later + total) / (2 * total)) by {
            vstd::arithmetic::div_mod::lemma_div_is_ordered(
                200 * done + total,
                200 * later + total,
                2 * total,
            );
        }
        assert(0 <= (200 * done + total) / (2 * total)) by {
            vstd::arithmetic::div_mod::lemma_div_pos_is_pos(200 * done + total, 2 * total);
        }
    }
}

impl TestCoordinator {
    /// A coordinator for a kind whose phases are `plan` (at least one), idle and with
    /// nothing yet to redraw.
    pub fn new(plan: PhasePlan) -> (r: Self)
        requires
            plan.phase_names.len() >= 1,
        ensures
            r@ == (CoordinatorModel {
                state: idle_model(plan.phase_names.len(), 0),
                dirty: false,
                guard: false,
                phase_names: names_of(plan.phase_names@),
                weights: plan.weights@,
                composite_name: plan.composite_name@,
            }),
            inv(r@),
    {
        let total = plan.phase_names.len();
        TestCoordinator { plan, state: TestState::idle(total, 0), dirty: false, started: false }
    }

    /// A copy of the current state, taken without changing anything.
    pub fn read_snapshot(&self) -> (r: TestState)
        ensures
            r@ == self@.state,
    {
        self.state.snapshot()
    }

    /// Takes the redraw flag: returns whether the state changed since the last call,
    /// and clears the flag.
    pub fn check_needs_refresh(&mut self) -> (r: bool)
        ensures
            r == old(self)@.dirty,
            final(self)@ == after_take_dirty(old(self)@),
    {
        let r = self.dirty;
        self.dirty = false;
        r
    }

    /// Starts a run unless one is in progress. Only the call that finds no run in
    /// progress starts one: it resets the state to a fresh run, marks it as started at
    /// `now_ms` and returns the new run's generation, under which its worker writes.
    /// Every other call changes nothing and returns `None`.
    pub fn start_test(&mut self, now_ms: u64) -> (r: Option<u64>)
        requires
            inv(old(self)@),
        ensures
            final(self)@ == after_start(old(self)@, now_ms),
            inv(final(self)@),
            r == (if start_granted(old(self)@) {
                Some(final(self)@.state.generation)
            } else {
                None::<u64>
            }),
    {
        if self.started {
            return None;
        }
        let generation = if self.state.generation == u64::MAX {
            0
        } else {
            self.state.generation + 1
        };
        let first = self.plan.phase_names[0].clone();
        let mut fresh = TestState::idle(self.plan.phase_names.len(), generation);
        fresh.status = TestStatus::Running;
        fresh.current_phase_name = first;
        fresh.started_at_ms = Some(now_ms);
        self.state = fresh;
        self.started = true;
        self.dirty = true;
        proof {
            lemma_progress_for(0, 0, self.plan.phase_names.len() as int);
            let n = self.plan.phase_names.len() as int;
            vstd::arithmetic::div_mod::lemma_basic_div(200 * 0 + n, 2 * n);
        }
        Some(generation)
    }

    /// The index of the phase that the worker of run `generation` should run next, or
    /// `None` when that run is over or no longer current.
    pub fn next_phase(&self, generation: u64) -> (r: Option<usize>)
        ensures
            r == (if is_current(self@, generation) && self@.state.completed < self@.state.total_phases {
                Some(self@.state.completed)
            } else {
                None::<usize>
            }),
    {
        if self.state.status == TestStatus::Running && self.state.generation == generation
            && self.state.completed_phases < self.state.total_phases {
            Some(self.state.completed_phases)
        } else {
            None
        }
    }

    /// Records that the next phase of run `generation` finished, with its result or
    /// with none. Updates progress, the phase shown and the running estimate; after
    /// the last phase appends the composite row and completes the run. A write from a
    /// run that is not current is dropped. Returns whether it was applied.
    pub fn record_phase(&mut self, generation: u64, outcome: Option<PhaseResult>) -> (r: bool)
        requires
            inv(old(self)@),
        ensures
            final(self)@ == after_record(old(self)@, generation, outcome_record(outcome)),
            inv(final(self)@),
            r == (is_current(old(self)@, generation) && old(self)@.state.completed
                < old(self)@.state.total_phases),
    {
        if self.state.status != TestStatus::Running || self.state.generation != generation
            || self.state.completed_phases >= self.state.total_phases {
            return false;
        }
        let ghost old_recs = records_of(self.state.results@);
        match outcome {
            Some(res) => {
                let ghost rv = res@;
                self.state.results.push(res);
                assert(records_of(self.state.results@) =~= old_recs.push(rv));
            },
            None => {},
        }
        let done = self.state.completed_phases + 1;
        let total = self.state.total_phases;
        let (p, s) = aggregate(&self.state.results, &self.plan.weights);
        self.state.completed_phases = done;
        self.state.running_primary_estimate = p;
        self.state.running_secondary_estimate = s;
        proof {
            lemma_progress_for(done - 1, done as int, total as int);
        }
        if done < total {
            self.state.progress = phase_progress(done, total);
            self.state.current_phase_name = self.plan.phase_names[done].clone();
            self.state.current_phase_index = done;
        } else {
            let c = composite_of(&self.state.results, &self.plan.weights, &self.plan.composite_name);
            let ghost before = records_of(self.state.results@);
            let ghost cv = c@;
            self.state.results.push(c);
            assert(records_of(self.state.results@) =~= before.push(cv));
            self.state.status = TestStatus::Completed;
            self.state.progress = 100;
            self.started = false;
        }
        self.dirty = true;
        true
    }

    /// Fails run `generation`: the state shows `message`, progress drops to 0, the
    /// results are discarded and a new run may start. A write from a run that is not
    /// current is dropped. Returns whether it was applied.
    pub fn fail_run(&mut self, generation: u64, message: String) -> (r: bool)
        requires
            inv(old(self)@),
        ensures
            final(self)@ == after_fail(old(self)@, generation, message@),
            inv(final(self)@),
            r == is_current(old(self)@, generation),
    {
        if self.state.status != TestStatus::Running || self.state.generation != generation {
            return false;
        }
        self.state.status = TestStatus::Failed;
        self.state.progress = 0;
        self.state.results = Vec::new();
        self.state.error = Some(message);
        self.started = false;
        self.dirty = true;
        assert(records_of(self.state.results@) =~= Seq::empty());
        true
    }

    /// Advances the spinner frame (modulo 8) while a run is in progress; does nothing
    /// otherwise.
    pub fn update_animation_frame(&mut self)
        requires
            inv(old(self)@),
        ensures
            final(self)@ == after_animation(old(self)@),
            inv(final(self)@),
    {
        if self.state.status == TestStatus::Running {
            self.state.animation_frame = (self.state.animation_frame + 1) % 8;
            self.dirty = true;
        }
    }

    /// Forgets the current run: the state goes back to idle under a new generation,
    /// so that a worker still running writes nowhere, and a new run may start.
    pub fn reset(&mut self)
        requires
            inv(old(self)@),
        ensures
            final(self)@ == after_reset(old(self)@),
            inv(final(self)@),
    {
        let generation = if self.state.generation == u64::MAX {
            0
        } else {
            self.state.generation + 1
        };
        self.state = TestState::idle(self.state.total_phases, generation);
        self.started = false;
        self.dirty = true;
    }
}

} // verus!
