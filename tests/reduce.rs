use bytewax::stateful::{drop_late, ReduceLogic, StatefulMapLogic, WindowError};
use bytewax::state::KeyedBytes;

fn enc(v: i64) -> Vec<u8> {
    v.to_le_bytes().to_vec()
}

fn dec(b: &[u8]) -> i64 {
    let mut a = [0u8; 8];
    a.copy_from_slice(b);
    i64::from_le_bytes(a)
}

/// Feeds one record through the reduce step, with `acc + v` as reducer
/// and `acc == 6 or v == -1` as completeness test.
fn feed(logic: &mut ReduceLogic, key: &str, v: i64) -> Option<(String, i64)> {
    let new = match logic.accumulator(&key.to_string()) {
        Some(acc) => dec(&acc) + v,
        None => v,
    };
    let complete = new == 6 || v == -1;
    logic.settle(key.to_string(), enc(new), complete).map(|(k, acc)| (k, dec(&acc)))
}

fn restore(snapshot: Vec<(String, Vec<u8>)>) -> ReduceLogic {
    let mut state = KeyedBytes::new();
    for (k, v) in snapshot {
        state.insert(k, v);
    }
    ReduceLogic::from_snapshot(state)
}

#[test]
fn stateful_sum_reduce() {
    let mut logic = ReduceLogic::from_snapshot(KeyedBytes::new());
    assert_eq!(feed(&mut logic, "k", 1), None);
    assert_eq!(feed(&mut logic, "k", 2), None);
    assert_eq!(feed(&mut logic, "k", 3), Some(("k".to_string(), 6)));
    assert_eq!(logic.accumulator(&"k".to_string()), None);
    assert!(logic.snapshot().is_empty());
}

#[test]
fn sentinel_closes_a_key() {
    let mut logic = ReduceLogic::from_snapshot(KeyedBytes::new());
    assert_eq!(feed(&mut logic, "k", 2), None);
    assert_eq!(feed(&mut logic, "k", -1), Some(("k".to_string(), 1)));
    assert_eq!(logic.accumulator(&"k".to_string()), None);
}

#[test]
fn resume_after_crash_emits_once() {
    let mut logic = ReduceLogic::from_snapshot(KeyedBytes::new());
    assert_eq!(feed(&mut logic, "k", 1), None);
    assert_eq!(feed(&mut logic, "k", 2), None);
    let snapshot = logic.snapshot();
    assert_eq!(snapshot, vec![("k".to_string(), enc(3))]);
    drop(logic);

    let mut resumed = restore(snapshot);
    let mut emitted = Vec::new();
    for v in [3, -1] {
        if let Some(out) = feed(&mut resumed, "k", v) {
            emitted.push(out);
        }
    }
    assert_eq!(emitted[0], ("k".to_string(), 6));
    assert_eq!(emitted.iter().filter(|(_, acc)| *acc == 6).count(), 1);
}

#[test]
fn keys_reduce_independently() {
    let mut logic = ReduceLogic::from_snapshot(KeyedBytes::new());
    assert_eq!(feed(&mut logic, "a", 4), None);
    assert_eq!(feed(&mut logic, "b", 5), None);
    assert_eq!(feed(&mut logic, "a", 2), Some(("a".to_string(), 6)));
    assert_eq!(logic.snapshot(), vec![("b".to_string(), enc(5))]);
}

#[test]
fn stateful_map_keeps_and_drops_state() {
    let mut logic = StatefulMapLogic::from_snapshot(KeyedBytes::new());
    let key = "k".to_string();
    assert_eq!(logic.state(&key), None);
    logic.settle(key.clone(), Some(vec![1]));
    assert_eq!(logic.state(&key), Some(vec![1]));
    logic.settle(key.clone(), Some(vec![2]));
    assert_eq!(logic.state(&key), Some(vec![2]));
    logic.settle(key.clone(), None);
    assert_eq!(logic.state(&key), None);
}

#[test]
fn late_window_data_is_dropped() {
    let items = vec![
        ("a".to_string(), Ok(vec![1])),
        ("b".to_string(), Err(WindowError::Late)),
        ("c".to_string(), Ok(vec![3])),
    ];
    assert_eq!(
        drop_late(&items),
        vec![("a".to_string(), vec![1]), ("c".to_string(), vec![3])]
    );
    assert!(drop_late(&vec![]).is_empty());
}
