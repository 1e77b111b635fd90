use bytewax::progress::{resume_from_progress, Change, KChange, ProgressMsg, ResumeFrom};
use bytewax::worker::{WorkerCount, WorkerIndex, WorkerKey};

fn init(gen: u64, w: usize, count: usize, epoch: u64) -> KChange {
    KChange(WorkerKey(gen, WorkerIndex(w)), Change::Upsert(ProgressMsg::Init(WorkerCount(count), epoch)))
}

fn frontier(gen: u64, w: usize, epoch: u64) -> KChange {
    KChange(WorkerKey(gen, WorkerIndex(w)), Change::Upsert(ProgressMsg::Frontier(epoch)))
}

#[test]
fn empty_log_starts_fresh() {
    assert_eq!(resume_from_progress(&vec![]), ResumeFrom(0, 0));
}

#[test]
fn crash_resumes_at_last_durable_frontier() {
    let log = vec![init(0, 0, 1, 0), frontier(0, 0, 1), frontier(0, 0, 2)];
    assert_eq!(resume_from_progress(&log), ResumeFrom(1, 2));
}

#[test]
fn resume_takes_least_worker_frontier_of_latest_generation() {
    let log = vec![
        init(0, 0, 2, 0),
        init(0, 1, 2, 0),
        frontier(0, 0, 9),
        frontier(0, 1, 8),
        init(1, 0, 2, 8),
        init(1, 1, 2, 8),
        frontier(1, 0, 12),
        frontier(1, 1, 10),
        frontier(1, 0, 13),
    ];
    assert_eq!(resume_from_progress(&log), ResumeFrom(2, 10));
}

#[test]
fn deleted_records_carry_no_epoch() {
    let log = vec![
        init(4, 0, 1, 3),
        KChange(WorkerKey(4, WorkerIndex(0)), Change::Delete),
    ];
    assert_eq!(resume_from_progress(&log), ResumeFrom(5, 3));
}
