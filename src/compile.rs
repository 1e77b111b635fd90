//! Building a blueprint on one worker: the operators, in an order that is
//! the same on every worker, and the saved state that each stateful step
//! takes.

use vstd::prelude::*;
use crate::blueprint::{
    check_step, first_error, handed, input_filter, ops_upto, output_filter, planned_operators,
    positions, registers_input, registers_output, residual, state_key, step_error, step_operators,
    step_state_key, DataflowError, Operator, Step,
};
use crate::progress::{initial_progress, Change, KChange, ProgressMsg, ResumeFrom};
use crate::state::FlowStateBytes;
use crate::worker::{WorkerCount, WorkerIndex, WorkerKey};

verus! {

/// The saved state handed to the stateful step at position `step`.
#[derive(Debug, Clone, PartialEq, Eq)]
pub struct StepState {
    pub step: usize,
    pub state: Option<Vec<u8>>,
}

/// The bytes held by an optional state.
pub open spec fn state_view(s: Option<Vec<u8>>) -> Option<Seq<u8>> {
    match s {
        Some(v) => Some(v@),
        None => None,
    }
}

/// The handed states as positions and bytes.
pub open spec fn states_view(s: Seq<StepState>) -> Seq<(usize, Option<Seq<u8>>)> {
    s.map_values(|x: StepState| (x.step, state_view(x.state)))
}

/// What a worker builds for a blueprint, as mathematical values.
pub struct PlanView {
    pub worker_key: WorkerKey,
    pub progress_init: KChange,
    pub operators: Seq<Operator>,
    pub inputs: Seq<usize>,
    pub outputs: Seq<usize>,
    pub states: Seq<(usize, Option<Seq<u8>>)>,
    pub orphans: Set<Seq<char>>,
}

/// What a worker builds for a blueprint.
#[derive(Debug)]
pub struct DataflowPlan {
    /// The worker in this generation.
    pub worker_key: WorkerKey,
    /// The record that marks the worker as present in this generation; it
    /// is written to the progress mirror and to the progress writer before
    /// any operator is built.
    pub progress_init: KChange,
    /// Every operator construction, in order.
    pub operators: Vec<Operator>,
    /// The positions of the steps that registered an input.
    pub inputs: Vec<usize>,
    /// The positions of the steps that registered an output.
    pub outputs: Vec<usize>,
    /// The saved state handed to each stateful step, in order.
    pub step_states: Vec<StepState>,
    /// The step ids of saved state that no step took: they are to be
    /// reported as a warning.
    pub orphans: Vec<String>,
}

impl DataflowPlan {
    /// The plan as mathematical values; the orphans as a set of step ids.
    pub open spec fn view(&self) -> PlanView {
        PlanView {
            worker_key: self.worker_key,
            progress_init: self.progress_init,
            operators: self.operators@,
            inputs: self.inputs@,
            outputs: self.outputs@,
            states: states_view(self.step_states@),
            orphans: Set::new(
                |k: Seq<char>| exists|i: int| 0 <= i < self.orphans@.len() && self.orphans@[i]@ == k,
            ),
        }
    }
}

/// What building a blueprint on a worker gives.
pub open spec fn compiled(
    steps: Seq<Step>,
    index: WorkerIndex,
    count: WorkerCount,
    from: ResumeFrom,
    saved: Map<Seq<char>, Seq<u8>>,
) -> Result<PlanView, DataflowError> {
    let n = steps.len() as int;
    match first_error(steps, n) {
        Some(e) => Err(e),
        None => if positions(steps, n, input_filter()).len() == 0 {
            Err(DataflowError::MissingInput)
        } else if positions(steps, n, output_filter()).len() == 0 {
            Err(DataflowError::MissingOutput)
        } else {
            Ok(
                PlanView {
                    worker_key: WorkerKey(from.0, index),
                    progress_init: KChange(
                        WorkerKey(from.0, index),
                        Change::Upsert(ProgressMsg::Init(count, from.1)),
                    ),
                    operators: planned_operators(steps),
                    inputs: positions(steps, n, input_filter()),
                    outputs: positions(steps, n, output_filter()),
                    states: handed(steps, n, saved),
                    orphans: residual(steps, n, saved).dom(),
                },
            )
        },
    }
}

/// The view of a build's result.
pub open spec fn outcome_view(r: Result<DataflowPlan, DataflowError>) -> Result<PlanView, DataflowError> {
    match r {
        Ok(p) => Ok(p@),
        Err(e) => Err(e),
    }
}

proof fn lemma_first_error_sticks(steps: Seq<Step>, i: int, n: int)
    requires
        0 <= i < n,
        first_error(steps, i) is None,
        step_error(steps[i]) is Some,
    ensures
        first_error(steps, n) == step_error(steps[i]),
    decreases n - i,
{
    if n > i + 1 {
        lemma_first_error_sticks(steps, i, n - 1);
    }
}

/// Builds the plan of the dataflow that worker `worker_index` of
/// `worker_count` runs for the blueprint `steps`, resuming at
/// `resume_from` with the saved state `resume_state`.
///
/// Every stateful step takes its own entry out of the saved state; what is
/// left is returned as orphans. Fails at the first step, in order, whose
/// source or sink shape is unknown or whose builder failed; then when no
/// step registers an input; then when none registers an output.
pub fn build_production_dataflow(
    steps: &Vec<Step>,
    worker_index: WorkerIndex,
    worker_count: WorkerCount,
    resume_from: ResumeFrom,
    resume_state: FlowStateBytes,
) -> (r: Result<DataflowPlan, DataflowError>)
    requires
        worker_index.0 < worker_count.0,
        resume_state.wf(),
    ensures
        outcome_view(r) == compiled(steps@, worker_index, worker_count, resume_from, resume_state@),
{
    let ResumeFrom(ex, resume_epoch) = resume_from;
    let worker_key = WorkerKey(ex, worker_index);
    let progress_init = initial_progress(worker_key, worker_count, resume_epoch);

    let ghost saved = resume_state@;
    let mut state = resume_state;
    let mut operators: Vec<Operator> = Vec::new();
    operators.push(Operator::EmptyStream);
    let mut inputs: Vec<usize> = Vec::new();
    let mut outputs: Vec<usize> = Vec::new();
    let mut step_states: Vec<StepState> = Vec::new();
    assert(states_view(step_states@) =~= handed(steps@, 0, saved));

    let mut i: usize = 0;
    while i < steps.len()
        invariant
            i <= steps@.len(),
            state.wf(),
            state@ == residual(steps@, i as int, saved),
            operators@ == ops_upto(steps@, i as int),
            inputs@ == positions(steps@, i as int, input_filter()),
            outputs@ == positions(steps@, i as int, output_filter()),
            states_view(step_states@) == handed(steps@, i as int, saved),
            first_error(steps@, i as int) is None,
        decreases steps@.len() - i,
    {
        let step = &steps[i];
        match check_step(step) {
            Some(e) => {
                proof {
                    lemma_first_error_sticks(steps@, i as int, steps@.len() as int);
                }
                return Err(e);
            },
            None => {},
        }
        let mut more = step_operators(step, i);
        operators.append(&mut more);
        if registers_input(step) {
            inputs.push(i);
        }
        if registers_output(step) {
            outputs.push(i);
        }
        match step_state_key(step) {
            Some(k) => {
                let ghost before = step_states@;
                let taken = state.remove(&k);
                step_states.push(StepState { step: i, state: taken });
                assert(states_view(step_states@) =~= states_view(before).push(
                    (i, state_view(taken)),
                ));
            },
            None => {},
        }
        i = i + 1;
    }

    if inputs.len() == 0 {
        return Err(DataflowError::MissingInput);
    }
    if outputs.len() == 0 {
        return Err(DataflowError::MissingOutput);
    }
    let orphans = state.keys();
    operators.push(Operator::ConcatChanges);
    operators.push(Operator::ConcatOutputs);
    operators.push(Operator::AttachRecovery);
    let plan = DataflowPlan {
        worker_key,
        progress_init,
        operators,
        inputs,
        outputs,
        step_states,
        orphans,
    };
    assert(plan@.orphans =~= state@.dom());
    assert(plan@.operators =~= planned_operators(steps@));
    Ok(plan)
}

proof fn lemma_handed_positions(steps: Seq<Step>, n: int, a: Map<Seq<char>, Seq<u8>>, b: Map<Seq<char>, Seq<u8>>)
    ensures
        handed(steps, n, a).len() == handed(steps, n, b).len(),
        forall|j: int| 0 <= j < handed(steps, n, a).len() ==>
            #[trigger] handed(steps, n, a)[j].0 == handed(steps, n, b)[j].0,
    decreases n,
{
    if n > 0 {
        lemma_handed_positions(steps, n - 1, a, b);
    }
}

proof fn lemma_residual_submap(steps: Seq<Step>, n: int, saved: Map<Seq<char>, Seq<u8>>)
    ensures
        forall|k: Seq<char>| #[trigger] residual(steps, n, saved).contains_key(k) ==>
            saved.contains_key(k) && residual(steps, n, saved)[k] == saved[k],
    decreases n,
{
    if n > 0 {
        lemma_residual_submap(steps, n - 1, saved);
        let prev = residual(steps, n - 1, saved);
        assert forall|k: Seq<char>| #[trigger] residual(steps, n, saved).contains_key(k) implies
            saved.contains_key(k) && residual(steps, n, saved)[k] == saved[k] by {
            match state_key(steps[n - 1]) {
                Some(key) => {
                    assert(residual(steps, n, saved) == prev.remove(key));
                    assert(prev.contains_key(k));
                },
                None => {
                    assert(residual(steps, n, saved) == prev);
                },
            }
        }
    }
}

proof fn lemma_consumed(steps: Seq<Step>, n: int, saved: Map<Seq<char>, Seq<u8>>, k: Seq<char>)
    requires
        0 <= n <= steps.len() <= usize::MAX,
        saved.contains_key(k),
        !residual(steps, n, saved).contains_key(k),
    ensures
        exists|j: int|
            0 <= j < handed(steps, n, saved).len()
            && (#[trigger] handed(steps, n, saved)[j]).1 == Some(saved[k])
            && handed(steps, n, saved)[j].0 < n
            && state_key(steps[handed(steps, n, saved)[j].0 as int]) == Some(k),
    decreases n,
{
    let h = handed(steps, n, saved);
    if n > 0 {
        let left = residual(steps, n - 1, saved);
        if left.contains_key(k) {
            lemma_residual_submap(steps, n - 1, saved);
            let prev = handed(steps, n - 1, saved);
            match state_key(steps[n - 1]) {
                Some(key) => {
                    assert(residual(steps, n, saved) == left.remove(key));
                    assert(key == k);
                    assert(h == prev.push(((n - 1) as usize, Some(left[k]))));
                    let j = h.len() - 1;
                    assert(h[j].1 == Some(saved[k]));
                },
                None => {
                    assert(residual(steps, n, saved) == left);
                },
            }
        } else {
            lemma_consumed(steps, n - 1, saved, k);
            let prev = handed(steps, n - 1, saved);
            let j = choose|j: int|
                0 <= j < prev.len()
                && (#[trigger] prev[j]).1 == Some(saved[k])
                && prev[j].0 < n - 1
                && state_key(steps[prev[j].0 as int]) == Some(k);
            match state_key(steps[n - 1]) {
                Some(key) => {
                    assert(h == prev.push(((n - 1) as usize, if left.contains_key(key) { Some(left[key]) } else { None })));
                },
                None => {
                    assert(h == prev);
                },
            }
            assert(h[j] == prev[j]);
        }
    }
}

/// Every worker builds the same operators, in the same order, for the
/// same blueprint: whether the build succeeds, the operators, the input
/// and output registrations and the positions of the stateful steps do not
/// depend on the worker's identity, on the generation or on the state the
/// worker resumes with.
pub proof fn symmetric_construction(
    steps: Seq<Step>,
    index_a: WorkerIndex,
    count_a: WorkerCount,
    from_a: ResumeFrom,
    saved_a: Map<Seq<char>, Seq<u8>>,
    index_b: WorkerIndex,
    count_b: WorkerCount,
    from_b: ResumeFrom,
    saved_b: Map<Seq<char>, Seq<u8>>,
)
    ensures
        ({
            let a = compiled(steps, index_a, count_a, from_a, saved_a);
            let b = compiled(steps, index_b, count_b, from_b, saved_b);
            &&& a is Ok <==> b is Ok
            &&& a is Err ==> a == b
            &&& a is Ok ==> {
                &&& a->Ok_0.operators == b->Ok_0.operators
                &&& a->Ok_0.inputs == b->Ok_0.inputs
                &&& a->Ok_0.outputs == b->Ok_0.outputs
                &&& a->Ok_0.states.len() == b->Ok_0.states.len()
                &&& forall|j: int| 0 <= j < a->Ok_0.states.len() ==>
                    #[trigger] a->Ok_0.states[j].0 == b->Ok_0.states[j].0
            }
        }),
{
    lemma_handed_positions(steps, steps.len() as int, saved_a, saved_b);
}

/// No saved state is dropped unseen: once a build succeeds, every entry
/// of the saved state was either handed, unchanged, to a stateful step
/// with its step id, or is listed among the orphans to warn about; and
/// every orphan is an entry of the saved state.
pub proof fn state_exhaustion(
    steps: Seq<Step>,
    index: WorkerIndex,
    count: WorkerCount,
    from: ResumeFrom,
    saved: Map<Seq<char>, Seq<u8>>,
)
    requires
        steps.len() <= usize::MAX,
        compiled(steps, index, count, from, saved) is Ok,
    ensures
        ({
            let p = compiled(steps, index, count, from, saved)->Ok_0;
            &&& p.orphans.subset_of(saved.dom())
            &&& forall|k: Seq<char>| #[trigger] saved.contains_key(k) ==> p.orphans.contains(k) || exists|j: int|
                0 <= j < p.states.len()
                && (#[trigger] p.states[j]).1 == Some(saved[k])
                && p.states[j].0 < steps.len()
                && state_key(steps[p.states[j].0 as int]) == Some(k)
        }),
{
    let n = steps.len() as int;
    let p = compiled(steps, index, count, from, saved)->Ok_0;
    assert(p.orphans == residual(steps, n, saved).dom());
    assert(p.states == handed(steps, n, saved));
    lemma_residual_submap(steps, n, saved);
    assert(p.orphans.subset_of(saved.dom()));
    assert forall|k: Seq<char>| #[trigger] saved.contains_key(k) implies residual(steps, n, saved).contains_key(k) || exists|j: int|
        0 <= j < handed(steps, n, saved).len()
        && (#[trigger] handed(steps, n, saved)[j]).1 == Some(saved[k])
        && handed(steps, n, saved)[j].0 < steps.len()
        && state_key(steps[handed(steps, n, saved)[j].0 as int]) == Some(k) by {
        if !residual(steps, n, saved).contains_key(k) {
            lemma_consumed(steps, n, saved, k);
        }
    }
}

/// A blueprint whose steps all build fails when no step registers an
/// input, and when steps register inputs but none registers an output.
pub proof fn missing_io_rejected(
    steps: Seq<Step>,
    index: WorkerIndex,
    count: WorkerCount,
    from: ResumeFrom,
    saved: Map<Seq<char>, Seq<u8>>,
)
    requires
        first_error(steps, steps.len() as int) is None,
    ensures
        positions(steps, steps.len() as int, input_filter()).len() == 0 ==> compiled(
            steps,
            index,
            count,
            from,
            saved,
        ) == Err::<PlanView, DataflowError>(DataflowError::MissingInput),
        positions(steps, steps.len() as int, input_filter()).len() > 0 && positions(
            steps,
            steps.len() as int,
            output_filter(),
        ).len() == 0 ==> compiled(steps, index, count, from, saved) == Err::<PlanView, DataflowError>(
            DataflowError::MissingOutput,
        ),
{
}

} // verus!
