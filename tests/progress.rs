use sendme_core::error::TransferError;
use sendme_core::progress::{
    total_files, total_size, ProgressEvent, ProgressStep, ProgressTracker, ViewProgress,
};

fn update(total_size: u64, rate: u64, files: usize, value: u64) -> ProgressStep {
    ProgressStep::Update(ViewProgress {
        total_size,
        bytes_per_second: rate,
        total_files: files,
        progress_value: value,
    })
}

#[test]
fn manifest_totals() {
    assert_eq!(total_size(&vec![4, 10, 20]), 34);
    assert_eq!(total_files(&vec![4, 10, 20]), 2);
    assert_eq!(total_files(&vec![4]), 0);
    assert_eq!(total_files(&vec![]), 0);
    assert_eq!(total_size(&vec![]), 0);
    assert_eq!(total_size(&vec![u64::MAX, 5]), u64::MAX);
}

#[test]
fn done_bytes_reach_sum_of_declared_sizes() {
    let mut t = ProgressTracker::new(&vec![4, 10, 20]);
    let events = vec![
        ProgressEvent::Found { id: 0, size: 4 },
        ProgressEvent::Found { id: 2, size: 20 },
        ProgressEvent::Progress { id: 0, offset: 4 },
        ProgressEvent::Done { id: 0 },
        ProgressEvent::Found { id: 1, size: 10 },
        ProgressEvent::Progress { id: 2, offset: 7 },
        ProgressEvent::Done { id: 2 },
        ProgressEvent::Progress { id: 1, offset: 10 },
        ProgressEvent::Done { id: 1 },
    ];
    for e in events {
        t.step(Some(e), 10);
    }
    assert_eq!(t.bytes_done(), 34);
    assert_eq!(t.step(Some(ProgressEvent::AllDone), 10), ProgressStep::Finished);
}

#[test]
fn progress_reports_running_total_and_sticky_rate() {
    let mut t = ProgressTracker::new(&vec![0, 100, 3000]);
    assert_eq!(t.step(Some(ProgressEvent::Found { id: 1, size: 100 }), 0), ProgressStep::Continue);
    assert_eq!(t.step(Some(ProgressEvent::Progress { id: 1, offset: 50 }), 500), update(3100, 0, 2, 50));
    assert_eq!(t.step(Some(ProgressEvent::Done { id: 1 }), 600), ProgressStep::Continue);
    // 2000 bytes over 2000 ms since the first sample at time 0.
    assert_eq!(
        t.step(Some(ProgressEvent::Progress { id: 2, offset: 1900 }), 2000),
        update(3100, 1000, 2, 2000)
    );
    // Within the window the rate stays.
    assert_eq!(
        t.step(Some(ProgressEvent::Progress { id: 2, offset: 2900 }), 2500),
        update(3100, 1000, 2, 3000)
    );
    // 1000 more bytes over 1000 ms.
    assert_eq!(
        t.step(Some(ProgressEvent::Progress { id: 2, offset: 2900 }), 3000),
        update(3100, 1000, 2, 3000)
    );
}

#[test]
fn rate_is_sampled_at_exactly_one_second() {
    let mut t = ProgressTracker::new(&vec![5000]);
    assert_eq!(
        t.step(Some(ProgressEvent::Progress { id: 0, offset: 999 }), 999),
        update(5000, 0, 0, 999)
    );
    assert_eq!(
        t.step(Some(ProgressEvent::Progress { id: 0, offset: 1500 }), 1000),
        update(5000, 1500, 0, 1500)
    );
    assert_eq!(
        t.step(Some(ProgressEvent::Progress { id: 0, offset: 4500 }), 3000),
        update(5000, 1500, 0, 4500)
    );
}

#[test]
fn unknown_done_id_adds_nothing() {
    let mut t = ProgressTracker::new(&vec![1]);
    t.step(Some(ProgressEvent::Done { id: 9 }), 0);
    assert_eq!(t.bytes_done(), 0);
}

#[test]
fn abort_and_closed_stream_fail() {
    let mut t = ProgressTracker::new(&vec![1]);
    assert_eq!(
        t.step(Some(ProgressEvent::Abort { reason: "peer left".to_string() }), 0),
        ProgressStep::Failed(TransferError::TransferAborted("peer left".to_string()))
    );
    assert_eq!(t.step(None, 0), ProgressStep::Failed(TransferError::ProgressStreamClosed));
}
