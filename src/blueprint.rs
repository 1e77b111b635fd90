//! Dataflow blueprints: their steps, the operators each step is built
//! into, and the errors that building a step can give.

use vstd::prelude::*;

verus! {

/// What came of building a part of a step that the host configures (a
/// source, a sink, a clock, a windower).
#[derive(Debug, Clone, PartialEq, Eq)]
pub enum BuildOutcome {
    Built,
    /// The builder failed, with its message.
    Failed(String),
}

/// The shape of an input step's source.
#[derive(Debug, Clone, PartialEq, Eq)]
pub enum InputKind {
    /// Owns keyed partitions spread over the workers; takes part in resume.
    Partitioned(BuildOutcome),
    /// Built afresh on every worker; keeps no state.
    Dynamic(BuildOutcome),
    /// A source of a shape the runtime does not know.
    Unrecognized,
}

/// The shape of an output step's sink.
#[derive(Debug, Clone, PartialEq, Eq)]
pub enum OutputKind {
    Partitioned(BuildOutcome),
    Dynamic(BuildOutcome),
    Unrecognized,
}

/// One step of a dataflow blueprint. The user functions that a step
/// carries run inside the operators and play no part in building them.
#[derive(Debug, Clone, PartialEq, Eq)]
pub enum Step {
    Input { step_id: String, input: InputKind },
    MapRecords,
    FlatMap,
    Filter,
    FilterMap,
    Inspect,
    InspectEpoch,
    Reduce { step_id: String },
    StatefulMap { step_id: String },
    CollectWindow { step_id: String, clock: BuildOutcome, windower: BuildOutcome },
    FoldWindow { step_id: String, clock: BuildOutcome, windower: BuildOutcome },
    ReduceWindow { step_id: String, clock: BuildOutcome, windower: BuildOutcome },
    Output { step_id: String, output: OutputKind },
}

/// One operator construction on a worker. Each one names the position in
/// the blueprint of the step it was built for.
#[derive(Debug, Clone, Copy, PartialEq, Eq, Structural)]
pub enum Operator {
    /// The empty stream that the first step starts from.
    EmptyStream,
    PartitionedInput(usize),
    DynamicInput(usize),
    MapRecords(usize),
    FlatMap(usize),
    Filter(usize),
    /// Drops the records that a filter-map turned into nothing.
    DropNone(usize),
    Inspect(usize),
    InspectEpoch(usize),
    /// Splits each record into its key and value.
    ExtractKey(usize),
    StatefulUnary(usize),
    StatefulWindowUnary(usize),
    /// Pairs the key with a window's result or error.
    SplitWindowResult(usize),
    /// Keeps window results and drops late data.
    DropLate(usize),
    /// Joins key and value back into one record.
    WrapKey(usize),
    PartitionedOutput(usize),
    DynamicOutput(usize),
    /// Reduces an output's stream to its progress.
    OutputClock(usize),
    /// Joins the state change streams of all stateful steps.
    ConcatChanges,
    /// Joins the progress of all outputs.
    ConcatOutputs,
    /// Writes progress and state changes to the recovery store.
    AttachRecovery,
}

/// The part of a step whose builder failed.
#[derive(Debug, Clone, Copy, PartialEq, Eq, Structural)]
pub enum BuildPart {
    Clock,
    Windower,
    PartitionedInput,
    DynamicInput,
    PartitionedOutput,
    DynamicOutput,
}

/// Why a blueprint could not be built.
#[derive(Debug, Clone, PartialEq, Eq)]
pub enum DataflowError {
    /// An input step's source has a shape the runtime does not know.
    UnknownInputType { step_id: String },
    /// An output step's sink has a shape the runtime does not know.
    UnknownOutputType { step_id: String },
    /// A builder of the step failed.
    Build { step_id: String, part: BuildPart, reason: String },
    /// The blueprint has no input step.
    MissingInput,
    /// The blueprint has no output step.
    MissingOutput,
}

/// The error of a windowed step: its clock is built first, then its
/// windower.
pub open spec fn window_error(step_id: String, clock: BuildOutcome, windower: BuildOutcome) -> Option<DataflowError> {
    match clock {
        BuildOutcome::Failed(m) => Some(DataflowError::Build { step_id, part: BuildPart::Clock, reason: m }),
        BuildOutcome::Built => match windower {
            BuildOutcome::Failed(m) => Some(DataflowError::Build { step_id, part: BuildPart::Windower, reason: m }),
            BuildOutcome::Built => None,
        },
    }
}

/// The error that building this one step gives, if any.
pub open spec fn step_error(step: Step) -> Option<DataflowError> {
    match step {
        Step::Input { step_id, input } => match input {
            InputKind::Partitioned(BuildOutcome::Failed(m)) => Some(
                DataflowError::Build { step_id, part: BuildPart::PartitionedInput, reason: m },
            ),
            InputKind::Dynamic(BuildOutcome::Failed(m)) => Some(
                DataflowError::Build { step_id, part: BuildPart::DynamicInput, reason: m },
            ),
            InputKind::Unrecognized => Some(DataflowError::UnknownInputType { step_id }),
            _ => None,
        },
        Step::Output { step_id, output } => match output {
            OutputKind::Partitioned(BuildOutcome::Failed(m)) => Some(
                DataflowError::Build { step_id, part: BuildPart::PartitionedOutput, reason: m },
            ),
            OutputKind::Dynamic(BuildOutcome::Failed(m)) => Some(
                DataflowError::Build { step_id, part: BuildPart::DynamicOutput, reason: m },
            ),
            OutputKind::Unrecognized => Some(DataflowError::UnknownOutputType { step_id }),
            _ => None,
        },
        Step::CollectWindow { step_id, clock, windower } => window_error(step_id, clock, windower),
        Step::FoldWindow { step_id, clock, windower } => window_error(step_id, clock, windower),
        Step::ReduceWindow { step_id, clock, windower } => window_error(step_id, clock, windower),
        _ => None,
    }
}

/// The first error among the first `n` steps, in blueprint order.
pub open spec fn first_error(steps: Seq<Step>, n: int) -> Option<DataflowError>
    decreases n,
{
    if n <= 0 {
        None
    } else {
        match first_error(steps, n - 1) {
            Some(e) => Some(e),
            None => step_error(steps[n - 1]),
        }
    }
}

/// The operators built for the step at position `i`.
pub open spec fn step_ops(step: Step, i: usize) -> Seq<Operator> {
    match step {
        Step::Input { input, .. } => match input {
            InputKind::Partitioned(_) => seq![Operator::PartitionedInput(i)],
            InputKind::Dynamic(_) => seq![Operator::DynamicInput(i)],
            InputKind::Unrecognized => Seq::empty(),
        },
        Step::MapRecords => seq![Operator::MapRecords(i)],
        Step::FlatMap => seq![Operator::FlatMap(i)],
        Step::Filter => seq![Operator::Filter(i)],
        Step::FilterMap => seq![Operator::MapRecords(i), Operator::DropNone(i)],
        Step::Inspect => seq![Operator::Inspect(i)],
        Step::InspectEpoch => seq![Operator::InspectEpoch(i)],
        Step::Reduce { .. } => seq![
            Operator::ExtractKey(i),
            Operator::StatefulUnary(i),
            Operator::WrapKey(i),
        ],
        Step::StatefulMap { .. } => seq![
            Operator::ExtractKey(i),
            Operator::StatefulUnary(i),
            Operator::WrapKey(i),
        ],
        Step::Output { output, .. } => match output {
            OutputKind::Partitioned(_) => seq![Operator::PartitionedOutput(i), Operator::OutputClock(i)],
            OutputKind::Dynamic(_) => seq![Operator::DynamicOutput(i), Operator::OutputClock(i)],
            OutputKind::Unrecognized => Seq::empty(),
        },
        _ => window_ops(i),
    }
}

/// The operators built for a windowed step at position `i`.
pub open spec fn window_ops(i: usize) -> Seq<Operator> {
    seq![
        Operator::ExtractKey(i),
        Operator::StatefulWindowUnary(i),
        Operator::SplitWindowResult(i),
        Operator::DropLate(i),
        Operator::WrapKey(i),
    ]
}

/// The operators built for the first `n` steps.
pub open spec fn ops_upto(steps: Seq<Step>, n: int) -> Seq<Operator>
    decreases n,
{
    if n <= 0 {
        seq![Operator::EmptyStream]
    } else {
        ops_upto(steps, n - 1) + step_ops(steps[n - 1], (n - 1) as usize)
    }
}

/// The operators that every worker builds for a blueprint, in order.
pub open spec fn planned_operators(steps: Seq<Step>) -> Seq<Operator> {
    ops_upto(steps, steps.len() as int) + seq![
        Operator::ConcatChanges,
        Operator::ConcatOutputs,
        Operator::AttachRecovery,
    ]
}

/// The step id under which a step keeps state, if it keeps any.
pub open spec fn state_key(step: Step) -> Option<Seq<char>> {
    match step {
        Step::Input { step_id, input: InputKind::Partitioned(_) } => Some(step_id@),
        Step::Output { step_id, output: OutputKind::Partitioned(_) } => Some(step_id@),
        Step::Reduce { step_id } => Some(step_id@),
        Step::StatefulMap { step_id } => Some(step_id@),
        Step::CollectWindow { step_id, .. } => Some(step_id@),
        Step::FoldWindow { step_id, .. } => Some(step_id@),
        Step::ReduceWindow { step_id, .. } => Some(step_id@),
        _ => None,
    }
}

/// A step that registers an input stream.
pub open spec fn is_input(step: Step) -> bool {
    match step {
        Step::Input { input, .. } => !(input is Unrecognized),
        _ => false,
    }
}

/// A step that registers an output stream.
pub open spec fn is_output(step: Step) -> bool {
    match step {
        Step::Output { output, .. } => !(output is Unrecognized),
        _ => false,
    }
}

/// The positions among the first `n` steps of those that `f` holds of.
pub open spec fn positions(steps: Seq<Step>, n: int, f: spec_fn(Step) -> bool) -> Seq<usize>
    decreases n,
{
    if n <= 0 {
        Seq::empty()
    } else if f(steps[n - 1]) {
        positions(steps, n - 1, f).push((n - 1) as usize)
    } else {
        positions(steps, n - 1, f)
    }
}

/// The saved state left after the first `n` steps took theirs out.
pub open spec fn residual(steps: Seq<Step>, n: int, saved: Map<Seq<char>, Seq<u8>>) -> Map<Seq<char>, Seq<u8>>
    decreases n,
{
    if n <= 0 {
        saved
    } else {
        match state_key(steps[n - 1]) {
            Some(k) => residual(steps, n - 1, saved).remove(k),
            None => residual(steps, n - 1, saved),
        }
    }
}

/// The state handed to each stateful step among the first `n`, with its
/// position: what was left under its step id when it was built.
pub open spec fn handed(steps: Seq<Step>, n: int, saved: Map<Seq<char>, Seq<u8>>) -> Seq<(usize, Option<Seq<u8>>)>
    decreases n,
{
    if n <= 0 {
        Seq::empty()
    } else {
        match state_key(steps[n - 1]) {
            Some(k) => {
                let left = residual(steps, n - 1, saved);
                handed(steps, n - 1, saved).push(
                    ((n - 1) as usize, if left.contains_key(k) { Some(left[k]) } else { None }),
                )
            },
            None => handed(steps, n - 1, saved),
        }
    }
}

/// Selects the steps that register an input stream.
pub open spec fn input_filter() -> spec_fn(Step) -> bool {
    |s: Step| is_input(s)
}

/// Selects the steps that register an output stream.
pub open spec fn output_filter() -> spec_fn(Step) -> bool {
    |s: Step| is_output(s)
}

fn window_check(step_id: &String, clock: &BuildOutcome, windower: &BuildOutcome) -> (r: Option<DataflowError>)
    ensures
        r == window_error(*step_id, *clock, *windower),
{
    match clock {
        BuildOutcome::Failed(m) => Some(
            DataflowError::Build { step_id: step_id.clone(), part: BuildPart::Clock, reason: m.clone() },
        ),
        BuildOutcome::Built => match windower {
            BuildOutcome::Failed(m) => Some(
                DataflowError::Build { step_id: step_id.clone(), part: BuildPart::Windower, reason: m.clone() },
            ),
            BuildOutcome::Built => None,
        },
    }
}

/// The error that building `step` gives, if any.
pub fn check_step(step: &Step) -> (r: Option<DataflowError>)
    ensures
        r == step_error(*step),
{
    match step {
        Step::Input { step_id, input } => match input {
            InputKind::Partitioned(BuildOutcome::Failed(m)) => Some(
                DataflowError::Build {
                    step_id: step_id.clone(),
                    part: BuildPart::PartitionedInput,
                    reason: m.clone(),
                },
            ),
            InputKind::Dynamic(BuildOutcome::Failed(m)) => Some(
                DataflowError::Build { step_id: step_id.clone(), part: BuildPart::DynamicInput, reason: m.clone() },
            ),
            InputKind::Unrecognized => Some(DataflowError::UnknownInputType { step_id: step_id.clone() }),
            _ => None,
        },
        Step::Output { step_id, output } => match output {
            OutputKind::Partitioned(BuildOutcome::Failed(m)) => Some(
                DataflowError::Build {
                    step_id: step_id.clone(),
                    part: BuildPart::PartitionedOutput,
                    reason: m.clone(),
                },
            ),
            OutputKind::Dynamic(BuildOutcome::Failed(m)) => Some(
                DataflowError::Build {
                    step_id: step_id.clone(),
                    part: BuildPart::DynamicOutput,
                    reason: m.clone(),
                },
            ),
            OutputKind::Unrecognized => Some(DataflowError::UnknownOutputType { step_id: step_id.clone() }),
            _ => None,
        },
        Step::CollectWindow { step_id, clock, windower } => window_check(step_id, clock, windower),
        Step::FoldWindow { step_id, clock, windower } => window_check(step_id, clock, windower),
        Step::ReduceWindow { step_id, clock, windower } => window_check(step_id, clock, windower),
        _ => None,
    }
}

/// The operators to build for `step`, standing at position `i`.
pub fn step_operators(step: &Step, i: usize) -> (r: Vec<Operator>)
    ensures
        r@ == step_ops(*step, i),
{
    let mut r: Vec<Operator> = Vec::new();
    match step {
        Step::Input { input, .. } => match input {
            InputKind::Partitioned(_) => r.push(Operator::PartitionedInput(i)),
            InputKind::Dynamic(_) => r.push(Operator::DynamicInput(i)),
            InputKind::Unrecognized => {},
        },
        Step::MapRecords => r.push(Operator::MapRecords(i)),
        Step::FlatMap => r.push(Operator::FlatMap(i)),
        Step::Filter => r.push(Operator::Filter(i)),
        Step::FilterMap => {
            r.push(Operator::MapRecords(i));
            r.push(Operator::DropNone(i));
        },
        Step::Inspect => r.push(Operator::Inspect(i)),
        Step::InspectEpoch => r.push(Operator::InspectEpoch(i)),
        Step::Reduce { .. } | Step::StatefulMap { .. } => {
            r.push(Operator::ExtractKey(i));
            r.push(Operator::StatefulUnary(i));
            r.push(Operator::WrapKey(i));
        },
        Step::Output { output, .. } => match output {
            OutputKind::Partitioned(_) => {
                r.push(Operator::PartitionedOutput(i));
                r.push(Operator::OutputClock(i));
            },
            OutputKind::Dynamic(_) => {
                r.push(Operator::DynamicOutput(i));
                r.push(Operator::OutputClock(i));
            },
            OutputKind::Unrecognized => {},
        },
        _ => {
            r.push(Operator::ExtractKey(i));
            r.push(Operator::StatefulWindowUnary(i));
            r.push(Operator::SplitWindowResult(i));
            r.push(Operator::DropLate(i));
            r.push(Operator::WrapKey(i));
        },
    }
    assert(r@ =~= step_ops(*step, i));
    r
}

/// The step id under which `step` keeps state, if it keeps any.
pub fn step_state_key(step: &Step) -> (r: Option<String>)
    ensures
        match r {
            Some(k) => state_key(*step) == Some(k@),
            None => state_key(*step) is None,
        },
{
    match step {
        Step::Input { step_id, input: InputKind::Partitioned(_) } => Some(step_id.clone()),
        Step::Output { step_id, output: OutputKind::Partitioned(_) } => Some(step_id.clone()),
        Step::Reduce { step_id } => Some(step_id.clone()),
        Step::StatefulMap { step_id } => Some(step_id.clone()),
        Step::CollectWindow { step_id, .. } => Some(step_id.clone()),
        Step::FoldWindow { step_id, .. } => Some(step_id.clone()),
        Step::ReduceWindow { step_id, .. } => Some(step_id.clone()),
        _ => None,
    }
}

/// Whether `step` registers an input stream.
pub fn registers_input(step: &Step) -> (r: bool)
    ensures
        r == is_input(*step),
{
    match step {
        Step::Input { input, .. } => !matches!(input, InputKind::Unrecognized),
        _ => false,
    }
}

/// Whether `step` registers an output stream.
pub fn registers_output(step: &Step) -> (r: bool)
    ensures
        r == is_output(*step),
{
    match step {
        Step::Output { output, .. } => !matches!(output, OutputKind::Unrecognized),
        _ => false,
    }
}

} // verus!
