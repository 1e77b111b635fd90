use bytewax::blueprint::{
    check_step, step_operators, BuildOutcome, BuildPart, DataflowError, InputKind, Operator,
    OutputKind, Step,
};
use bytewax::compile::{build_production_dataflow, DataflowPlan, StepState};
use bytewax::progress::{Change, KChange, ProgressMsg, ResumeFrom};
use bytewax::state::FlowStateBytes;
use bytewax::worker::{WorkerCount, WorkerIndex, WorkerKey};

fn input(id: &str) -> Step {
    Step::Input { step_id: id.to_string(), input: InputKind::Partitioned(BuildOutcome::Built) }
}

fn output(id: &str) -> Step {
    Step::Output { step_id: id.to_string(), output: OutputKind::Dynamic(BuildOutcome::Built) }
}

fn build(steps: &Vec<Step>, state: FlowStateBytes) -> Result<DataflowPlan, DataflowError> {
    build_production_dataflow(steps, WorkerIndex(0), WorkerCount(1), ResumeFrom(0, 0), state)
}

#[test]
fn identity_passthrough_plan() {
    let steps = vec![input("in"), output("out")];
    let plan = build(&steps, FlowStateBytes::new()).unwrap();
    assert_eq!(
        plan.operators,
        vec![
            Operator::EmptyStream,
            Operator::PartitionedInput(0),
            Operator::DynamicOutput(1),
            Operator::OutputClock(1),
            Operator::ConcatChanges,
            Operator::ConcatOutputs,
            Operator::AttachRecovery,
        ]
    );
    assert_eq!(plan.inputs, vec![0]);
    assert_eq!(plan.outputs, vec![1]);
    assert_eq!(plan.step_states, vec![StepState { step: 0, state: None }]);
    assert!(plan.orphans.is_empty());
    let key = WorkerKey(0, WorkerIndex(0));
    assert_eq!(plan.worker_key, key);
    assert_eq!(
        plan.progress_init,
        KChange(key, Change::Upsert(ProgressMsg::Init(WorkerCount(1), 0)))
    );
}

#[test]
fn reduce_plan_hands_saved_state() {
    let steps = vec![input("in"), Step::Reduce { step_id: "sum".to_string() }, output("out")];
    let mut state = FlowStateBytes::new();
    state.insert("sum".to_string(), vec![3]);
    let plan = build(&steps, state).unwrap();
    assert_eq!(
        plan.operators,
        vec![
            Operator::EmptyStream,
            Operator::PartitionedInput(0),
            Operator::ExtractKey(1),
            Operator::StatefulUnary(1),
            Operator::WrapKey(1),
            Operator::DynamicOutput(2),
            Operator::OutputClock(2),
            Operator::ConcatChanges,
            Operator::ConcatOutputs,
            Operator::AttachRecovery,
        ]
    );
    assert_eq!(
        plan.step_states,
        vec![StepState { step: 0, state: None }, StepState { step: 1, state: Some(vec![3]) }]
    );
    assert!(plan.orphans.is_empty());
}

#[test]
fn renamed_step_leaves_orphan_state() {
    let steps = vec![input("in"), Step::Reduce { step_id: "sum2".to_string() }, output("out")];
    let mut state = FlowStateBytes::new();
    state.insert("sum".to_string(), vec![3]);
    let plan = build(&steps, state).unwrap();
    assert_eq!(plan.orphans, vec!["sum".to_string()]);
    assert_eq!(
        plan.step_states,
        vec![StepState { step: 0, state: None }, StepState { step: 1, state: None }]
    );
}

#[test]
fn every_saved_entry_is_handed_or_orphaned() {
    let steps = vec![
        input("in"),
        Step::StatefulMap { step_id: "acc".to_string() },
        Step::Output { step_id: "out".to_string(), output: OutputKind::Partitioned(BuildOutcome::Built) },
    ];
    let mut state = FlowStateBytes::new();
    state.insert("in".to_string(), vec![1]);
    state.insert("acc".to_string(), vec![2]);
    state.insert("out".to_string(), vec![3]);
    state.insert("gone".to_string(), vec![4]);
    let plan = build(&steps, state).unwrap();
    assert_eq!(
        plan.step_states,
        vec![
            StepState { step: 0, state: Some(vec![1]) },
            StepState { step: 1, state: Some(vec![2]) },
            StepState { step: 2, state: Some(vec![3]) },
        ]
    );
    assert_eq!(plan.orphans, vec!["gone".to_string()]);
}

#[test]
fn repeated_step_id_takes_state_once() {
    let steps = vec![
        input("in"),
        Step::Reduce { step_id: "r".to_string() },
        Step::Reduce { step_id: "r".to_string() },
        output("out"),
    ];
    let mut state = FlowStateBytes::new();
    state.insert("r".to_string(), vec![9]);
    let plan = build(&steps, state).unwrap();
    assert_eq!(
        plan.step_states,
        vec![
            StepState { step: 0, state: None },
            StepState { step: 1, state: Some(vec![9]) },
            StepState { step: 2, state: None },
        ]
    );
}

#[test]
fn workers_build_the_same_operators() {
    let steps = vec![
        input("in"),
        Step::MapRecords,
        Step::FilterMap,
        Step::CollectWindow {
            step_id: "w".to_string(),
            clock: BuildOutcome::Built,
            windower: BuildOutcome::Built,
        },
        output("out"),
    ];
    let mut state = FlowStateBytes::new();
    state.insert("w".to_string(), vec![7]);
    let a = build_production_dataflow(&steps, WorkerIndex(0), WorkerCount(2), ResumeFrom(1, 5), state)
        .unwrap();
    let b = build_production_dataflow(
        &steps,
        WorkerIndex(1),
        WorkerCount(2),
        ResumeFrom(1, 5),
        FlowStateBytes::new(),
    )
    .unwrap();
    assert_eq!(a.operators, b.operators);
    assert_eq!(a.inputs, b.inputs);
    assert_eq!(a.outputs, b.outputs);
    assert_eq!(a.operators.len(), 1 + 1 + 1 + 2 + 5 + 2 + 3);
    assert_eq!(a.step_states[1], StepState { step: 3, state: Some(vec![7]) });
    assert_eq!(b.step_states[1], StepState { step: 3, state: None });
    assert_eq!(b.worker_key, WorkerKey(1, WorkerIndex(1)));
}

#[test]
fn no_input_is_rejected() {
    let steps = vec![Step::MapRecords, output("out")];
    assert_eq!(build(&steps, FlowStateBytes::new()).unwrap_err(), DataflowError::MissingInput);
    assert_eq!(build(&vec![], FlowStateBytes::new()).unwrap_err(), DataflowError::MissingInput);
}

#[test]
fn no_output_is_rejected() {
    let steps = vec![input("in"), Step::Inspect];
    assert_eq!(build(&steps, FlowStateBytes::new()).unwrap_err(), DataflowError::MissingOutput);
}

#[test]
fn unknown_shapes_are_rejected() {
    let steps = vec![Step::Input { step_id: "in".to_string(), input: InputKind::Unrecognized }];
    assert_eq!(
        build(&steps, FlowStateBytes::new()).unwrap_err(),
        DataflowError::UnknownInputType { step_id: "in".to_string() }
    );
    let steps = vec![
        input("in"),
        Step::Output { step_id: "out".to_string(), output: OutputKind::Unrecognized },
    ];
    assert_eq!(
        build(&steps, FlowStateBytes::new()).unwrap_err(),
        DataflowError::UnknownOutputType { step_id: "out".to_string() }
    );
}

#[test]
fn first_builder_failure_is_reported() {
    let steps = vec![
        input("in"),
        Step::FoldWindow {
            step_id: "f".to_string(),
            clock: BuildOutcome::Built,
            windower: BuildOutcome::Failed("bad window".to_string()),
        },
        Step::ReduceWindow {
            step_id: "r".to_string(),
            clock: BuildOutcome::Failed("bad clock".to_string()),
            windower: BuildOutcome::Built,
        },
    ];
    assert_eq!(
        build(&steps, FlowStateBytes::new()).unwrap_err(),
        DataflowError::Build {
            step_id: "f".to_string(),
            part: BuildPart::Windower,
            reason: "bad window".to_string(),
        }
    );
    let step = Step::ReduceWindow {
        step_id: "r".to_string(),
        clock: BuildOutcome::Failed("bad clock".to_string()),
        windower: BuildOutcome::Failed("bad window".to_string()),
    };
    assert_eq!(
        check_step(&step),
        Some(DataflowError::Build {
            step_id: "r".to_string(),
            part: BuildPart::Clock,
            reason: "bad clock".to_string(),
        })
    );
    let step = Step::Input {
        step_id: "in".to_string(),
        input: InputKind::Dynamic(BuildOutcome::Failed("no source".to_string())),
    };
    assert_eq!(
        check_step(&step),
        Some(DataflowError::Build {
            step_id: "in".to_string(),
            part: BuildPart::DynamicInput,
            reason: "no source".to_string(),
        })
    );
}

#[test]
fn step_operator_shapes() {
    assert_eq!(
        step_operators(&Step::FilterMap, 4),
        vec![Operator::MapRecords(4), Operator::DropNone(4)]
    );
    assert_eq!(step_operators(&Step::InspectEpoch, 2), vec![Operator::InspectEpoch(2)]);
    assert_eq!(
        step_operators(
            &Step::ReduceWindow {
                step_id: "r".to_string(),
                clock: BuildOutcome::Built,
                windower: BuildOutcome::Built,
            },
            1
        ),
        vec![
            Operator::ExtractKey(1),
            Operator::StatefulWindowUnary(1),
            Operator::SplitWindowResult(1),
            Operator::DropLate(1),
            Operator::WrapKey(1),
        ]
    );
}
