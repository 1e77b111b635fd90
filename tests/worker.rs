use bytewax::progress::{Change, KChange, ProgressMsg, ProgressObserver};
use bytewax::span::PeriodicSpan;
use bytewax::state::FlowStateBytes;
use bytewax::worker::{WorkerCount, WorkerIndex, WorkerKey};

#[test]
fn worker_count_iter_works() {
    let count = WorkerCount(3);
    let found: Vec<_> = count.iter().into_iter().collect();
    let expected = vec![WorkerIndex(0), WorkerIndex(1), WorkerIndex(2)];
    assert_eq!(found, expected);
}

#[test]
fn worker_count_zero_has_no_workers() {
    assert!(WorkerCount(0).iter().is_empty());
}

#[test]
fn flow_state_insert_remove() {
    let mut st = FlowStateBytes::new();
    assert!(st.is_empty());
    st.insert("sum".to_string(), vec![1, 2]);
    st.insert("in".to_string(), vec![3]);
    st.insert("sum".to_string(), vec![4]);
    assert_eq!(st.len(), 2);
    assert_eq!(st.remove(&"sum".to_string()), Some(vec![4]));
    assert_eq!(st.remove(&"sum".to_string()), None);
    assert_eq!(st.keys(), vec!["in".to_string()]);
    assert_eq!(st.remove(&"in".to_string()), Some(vec![3]));
    assert!(st.is_empty());
}

#[test]
fn progress_observer_frontier_never_moves_back() {
    let key = WorkerKey(1, WorkerIndex(0));
    let mut obs = ProgressObserver::new(key, 5);
    assert_eq!(
        obs.observe(7),
        Some(KChange(key, Change::Upsert(ProgressMsg::Frontier(7))))
    );
    assert_eq!(obs.observe(6), None);
    assert_eq!(obs.frontier, 7);
    assert_eq!(obs.observe(7), None);
    assert_eq!(
        obs.observe(9),
        Some(KChange(key, Change::Upsert(ProgressMsg::Frontier(9))))
    );
    assert_eq!(obs.frontier, 9);
}

#[test]
fn initial_progress_marks_worker_present() {
    let key = WorkerKey(3, WorkerIndex(1));
    assert_eq!(
        bytewax::progress::initial_progress(key, WorkerCount(2), 4),
        KChange(key, Change::Upsert(ProgressMsg::Init(WorkerCount(2), 4)))
    );
}

#[test]
fn periodic_span_renews_after_length() {
    let mut span = PeriodicSpan::new(10, 100);
    assert!(!span.update(105));
    assert!(!span.update(110));
    assert_eq!(span.counter, 0);
    assert!(span.update(111));
    assert_eq!(span, PeriodicSpan { length: 10, last_open: 111, counter: 1 });
    assert!(!span.update(50));
    assert!(span.update(200));
    assert_eq!(span.counter, 2);
}
