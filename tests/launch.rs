use bytewax::execution::{
    classify_panic, first_failure, wait_action, worker_status, ExecutionError, HostError,
    InterruptFlag, PanicPayload, WaitAction, WorkerStatus,
};
use bytewax::launch::{
    communication_config, local_addresses, resolve_launch, CommunicationConfig, Launch, LaunchError,
};

#[test]
fn conflicting_launch_options_are_refused() {
    assert_eq!(
        resolve_launch(true, Some(2), None, Some(0), None, None),
        Err(LaunchError::ConflictingOptions)
    );
    assert_eq!(
        resolve_launch(true, None, Some(2), None, Some(vec!["a:1".to_string()]), None),
        Err(LaunchError::ConflictingOptions)
    );
}

#[test]
fn launch_outside_launcher_is_refused() {
    assert_eq!(
        resolve_launch(false, None, None, None, None, None),
        Err(LaunchError::NotFromLauncher)
    );
}

#[test]
fn launch_plans() {
    assert_eq!(resolve_launch(true, None, None, None, None, None), Ok(Launch::SingleWorker));
    assert_eq!(resolve_launch(true, Some(1), Some(1), None, None, Some(3)), Ok(Launch::SingleWorker));
    assert_eq!(
        resolve_launch(true, Some(2), Some(1), None, None, None),
        Ok(Launch::SpawnLocal { processes: 2 })
    );
    assert_eq!(
        resolve_launch(true, Some(2), None, None, None, Some(1)),
        Ok(Launch::LocalMember { processes: 2, proc_id: 1, workers_per_process: 1 })
    );
    let addrs = vec!["h:1".to_string(), "h:2".to_string()];
    assert_eq!(
        resolve_launch(true, None, None, Some(1), Some(addrs.clone()), None),
        Ok(Launch::ClusterMember { addresses: Some(addrs), proc_id: 1, workers_per_process: 1 })
    );
}

#[test]
fn local_cluster_addresses() {
    assert_eq!(
        local_addresses(2),
        vec!["localhost:2101".to_string(), "localhost:2102".to_string()]
    );
    assert!(local_addresses(0).is_empty());
}

#[test]
fn communication_choice() {
    assert_eq!(communication_config(None, 0, 3), CommunicationConfig::Process { threads: 3 });
    assert_eq!(communication_config(Some(vec![]), 0, 2), CommunicationConfig::Process { threads: 2 });
    let addrs = vec!["localhost:2101".to_string(), "localhost:2102".to_string()];
    assert_eq!(
        communication_config(Some(addrs.clone()), 1, 1),
        CommunicationConfig::Cluster { threads: 1, process: 1, addresses: addrs }
    );
}

#[test]
fn panic_payloads_are_classified() {
    let interrupt = HostError { is_interrupt: true, message: "KeyboardInterrupt".to_string() };
    assert_eq!(classify_panic(PanicPayload::Host(interrupt)), ExecutionError::Interrupted);
    let user = HostError { is_interrupt: false, message: "ValueError: boom".to_string() };
    assert_eq!(classify_panic(PanicPayload::Host(user.clone())), ExecutionError::User(user));
    assert_eq!(
        classify_panic(PanicPayload::Text("channel closed".to_string())),
        ExecutionError::Runtime("channel closed".to_string())
    );
    assert_eq!(
        classify_panic(PanicPayload::Unknown),
        ExecutionError::Runtime("unknown error".to_string())
    );
}

#[test]
fn first_worker_failure_surfaces() {
    let results = vec![
        None,
        Some(ExecutionError::Runtime("a".to_string())),
        Some(ExecutionError::Interrupted),
    ];
    assert_eq!(first_failure(results), Some(ExecutionError::Runtime("a".to_string())));
    assert_eq!(first_failure(vec![None, None]), None);
}

#[test]
fn interrupt_twice_is_interrupt_once() {
    let mut once = InterruptFlag::new();
    assert!(!once.is_set());
    once.interrupt();
    let mut twice = InterruptFlag::new();
    twice.interrupt();
    twice.interrupt();
    assert_eq!(once, twice);
    assert_eq!(worker_status(&once, false), WorkerStatus::Interrupted);
    assert_eq!(worker_status(&twice, false), WorkerStatus::Interrupted);
}

#[test]
fn interrupt_stops_running_workers() {
    let mut flag = InterruptFlag::new();
    assert_eq!(worker_status(&flag, false), WorkerStatus::Running);
    assert_eq!(worker_status(&flag, true), WorkerStatus::Finished);
    flag.interrupt();
    assert_eq!(worker_status(&flag, false), WorkerStatus::Interrupted);
    assert_eq!(wait_action(false, true), WaitAction::ShutDown);
    assert_eq!(wait_action(false, false), WaitAction::KeepWaiting);
    assert_eq!(wait_action(true, true), WaitAction::Done);
}
