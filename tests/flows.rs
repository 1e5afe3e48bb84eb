use sendme_core::error::TransferError;
use sendme_core::export::{
    download_done_path, export_targets, is_one_file, single_file_target, Collection,
    CollectionEntry, ExportAction, ExportEvent, ExportRun,
};
use sendme_core::hash::ContentHash;
use sendme_core::interconnect::{root_format, BlobFormat, TransferStats, ViewUpdate};
use sendme_core::path::entry_name;
use sendme_core::progress::{ProgressEvent, ProgressStep, ProgressTracker};
use sendme_core::receive::{ReceiveEvent, ReceivePhase, ReceiveReply, ReceiveSession};
use sendme_core::serve::{SendEvent, SendPhase, SendReply, SendSession};

fn entry(name: &str, b: u8) -> CollectionEntry {
    CollectionEntry { name: name.to_string(), hash: ContentHash { bytes: [b; 32] } }
}

#[test]
fn one_file_collections() {
    assert!(is_one_file(&Collection { entries: vec![entry("a", 1)] }));
    assert!(!is_one_file(&Collection { entries: vec![entry("a", 1), entry("b", 2)] }));
    assert!(!is_one_file(&Collection { entries: vec![] }));
}

#[test]
fn done_path_is_first_component_of_first_entry() {
    let c = Collection { entries: vec![entry("dir/a.txt", 1), entry("other", 2)] };
    assert_eq!(download_done_path(&c), Some("dir".to_string()));
    assert_eq!(download_done_path(&Collection { entries: vec![] }), None);
}

#[test]
fn targets_for_every_entry() {
    let c = Collection { entries: vec![entry("a.txt", 1), entry("sub/b.txt", 2)] };
    assert_eq!(
        export_targets(&c, "/dst"),
        Ok(vec!["/dst/a.txt".to_string(), "/dst/sub/b.txt".to_string()])
    );
    let bad = Collection { entries: vec![entry("a.txt", 1), entry("../b", 2)] };
    assert_eq!(export_targets(&bad, "/dst"), Err(TransferError::InvalidPathComponent));
}

#[test]
fn single_file_target_prefers_the_picked_path() {
    assert_eq!(
        single_file_target(Some("/chosen/f".to_string()), "/cwd", "f"),
        Ok("/chosen/f".to_string())
    );
    assert_eq!(single_file_target(None, "/cwd", "f"), Ok("/cwd/f".to_string()));
    assert_eq!(single_file_target(None, "/cwd", ".."), Err(TransferError::InvalidPathComponent));
}

#[test]
fn existing_destination_stops_export() {
    let mut run = ExportRun::new(2);
    assert_eq!(run.next_action(), ExportAction::CheckTarget(0));
    run.on_event(ExportEvent::Checked { exists: false });
    assert_eq!(run.next_action(), ExportAction::Write(0));
    run.on_event(ExportEvent::Written);
    assert_eq!(run.next_action(), ExportAction::CheckTarget(1));
    run.on_event(ExportEvent::Checked { exists: true });
    assert_eq!(run.next_action(), ExportAction::Stop(TransferError::DestinationExists));
    run.on_event(ExportEvent::Checked { exists: false });
    run.on_event(ExportEvent::Written);
    assert_eq!(run.next_action(), ExportAction::Stop(TransferError::DestinationExists));
}

#[test]
fn existing_destination_of_single_file_stops_export() {
    let mut run = ExportRun::new(1);
    run.on_event(ExportEvent::Checked { exists: true });
    assert_eq!(run.next_action(), ExportAction::Stop(TransferError::DestinationExists));
}

#[test]
fn io_failure_keeps_staging() {
    let mut run = ExportRun::new(1);
    run.on_event(ExportEvent::Checked { exists: false });
    run.on_event(ExportEvent::IoFailed);
    assert_eq!(run.next_action(), ExportAction::Stop(TransferError::FilesystemIoError));
}

#[test]
fn empty_export_only_cleans_up() {
    let mut run = ExportRun::new(0);
    assert_eq!(run.next_action(), ExportAction::RemoveStaging);
    run.on_event(ExportEvent::StagingRemoved);
    assert_eq!(run.next_action(), ExportAction::Done);
}

#[test]
fn root_format_by_entry_count() {
    assert_eq!(root_format(1), BlobFormat::Raw);
    assert_eq!(root_format(2), BlobFormat::HashSeq);
    assert_eq!(root_format(0), BlobFormat::HashSeq);
}

fn serving_session() -> SendSession {
    let mut s = SendSession::new();
    assert_eq!(s.phase(), SendPhase::Packaging);
    s.on_event(SendEvent::Packaged);
    assert_eq!(s.phase(), SendPhase::Announced);
    s.on_event(SendEvent::TicketReported);
    assert_eq!(s.phase(), SendPhase::Serving);
    s
}

#[test]
fn cancel_refuses_new_transfers_and_keeps_running_ones() {
    let mut s = serving_session();
    assert_eq!(s.on_event(SendEvent::Inbound { cancel: false }), SendReply::Accept);
    assert_eq!(s.active_transfers(), 1);
    assert_eq!(s.on_event(SendEvent::Inbound { cancel: true }), SendReply::Refuse);
    assert_eq!(s.phase(), SendPhase::Cancelled);
    assert_eq!(s.active_transfers(), 1);
    assert_eq!(s.on_event(SendEvent::Inbound { cancel: false }), SendReply::Refuse);
    s.on_event(SendEvent::TransferEnded);
    assert_eq!(s.active_transfers(), 0);
    assert_eq!(s.phase(), SendPhase::Cancelled);
}

#[test]
fn cancel_seen_at_poll() {
    let mut s = serving_session();
    s.on_event(SendEvent::Polled { cancel: false });
    assert_eq!(s.phase(), SendPhase::Serving);
    s.on_event(SendEvent::Polled { cancel: true });
    assert_eq!(s.phase(), SendPhase::Cancelled);
    assert_eq!(s.on_event(SendEvent::Inbound { cancel: false }), SendReply::Refuse);
}

#[test]
fn packaging_failure_is_fatal() {
    let mut s = SendSession::new();
    s.on_event(SendEvent::PackagingFailed);
    assert_eq!(s.phase(), SendPhase::Failed(TransferError::FilesystemIoError));
    s.on_event(SendEvent::Packaged);
    assert_eq!(s.phase(), SendPhase::Failed(TransferError::FilesystemIoError));
}

#[test]
fn peer_disconnect_is_not_fatal() {
    let mut s = serving_session();
    assert_eq!(s.on_event(SendEvent::Inbound { cancel: false }), SendReply::Accept);
    s.on_event(SendEvent::TransferEnded);
    assert_eq!(s.phase(), SendPhase::Serving);
    s.on_event(SendEvent::TransportFailed);
    assert_eq!(s.phase(), SendPhase::Failed(TransferError::ConnectionFailed));
}

#[test]
fn two_file_directory_end_to_end_logic() {
    // Send side: two entries named from their relative paths, announced as a hash sequence.
    let a = entry_name(&vec!["a.txt".to_string()]).unwrap();
    let b = entry_name(&vec!["sub".to_string(), "b.txt".to_string()]).unwrap();
    let collection = Collection { entries: vec![entry(&a, 1), entry(&b, 2)] };
    assert_eq!(collection.len(), 2);
    assert_eq!(root_format(collection.len()), BlobFormat::HashSeq);

    // Receive side: the manifest entry plus the two files.
    let mut t = ProgressTracker::new(&vec![64, 10, 20]);
    for (id, size) in [(0u64, 64u64), (1, 10), (2, 20)] {
        t.step(Some(ProgressEvent::Found { id, size }), 0);
        t.step(Some(ProgressEvent::Progress { id, offset: size }), 0);
        t.step(Some(ProgressEvent::Done { id }), 0);
    }
    assert_eq!(t.bytes_done(), 94);
    assert_eq!(t.step(Some(ProgressEvent::AllDone), 0), ProgressStep::Finished);

    let targets = export_targets(&collection, "/empty").unwrap();
    assert_eq!(targets, vec!["/empty/a.txt".to_string(), "/empty/sub/b.txt".to_string()]);
    let mut run = ExportRun::new(targets.len());
    let mut written = vec![];
    loop {
        match run.next_action() {
            ExportAction::CheckTarget(_) => run.on_event(ExportEvent::Checked { exists: false }),
            ExportAction::Write(i) => {
                written.push(targets[i].clone());
                run.on_event(ExportEvent::Written)
            }
            ExportAction::RemoveStaging => run.on_event(ExportEvent::StagingRemoved),
            ExportAction::Done => break,
            ExportAction::Stop(e) => panic!("export stopped: {:?}", e),
        }
    }
    assert_eq!(written, targets);
}

#[test]
fn receive_reports_totals_then_path() {
    let stats = TransferStats { bytes_read: 30, elapsed_ms: 5 };
    let mut r = ReceiveSession::new();
    assert_eq!(r.phase(), ReceivePhase::Connecting);
    assert_eq!(r.on_event(ReceiveEvent::Connected), ReceiveReply::Continue);
    assert_eq!(r.on_event(ReceiveEvent::SizesFetched), ReceiveReply::Continue);
    assert_eq!(r.phase(), ReceivePhase::Downloading);
    assert_eq!(
        r.on_event(ReceiveEvent::Downloaded(stats)),
        ReceiveReply::Report(ViewUpdate::DownloadDone { stats, path: String::new() })
    );
    assert_eq!(r.phase(), ReceivePhase::Loading(stats));
    assert_eq!(
        r.on_event(ReceiveEvent::Loaded { first: Some("dir".to_string()) }),
        ReceiveReply::Report(ViewUpdate::DownloadDone { stats, path: "dir".to_string() })
    );
    assert_eq!(r.on_event(ReceiveEvent::Exported), ReceiveReply::Continue);
    assert_eq!(r.phase(), ReceivePhase::Completed);
}

#[test]
fn receive_failures_name_their_stage() {
    let mut r = ReceiveSession::new();
    r.on_event(ReceiveEvent::ConnectFailed);
    assert_eq!(r.phase(), ReceivePhase::Failed(TransferError::ConnectionFailed));

    let mut r = ReceiveSession::new();
    r.on_event(ReceiveEvent::Connected);
    r.on_event(ReceiveEvent::SizesFailed);
    assert_eq!(r.phase(), ReceivePhase::Failed(TransferError::ManifestFetchFailed));

    let mut r = ReceiveSession::new();
    r.on_event(ReceiveEvent::Connected);
    r.on_event(ReceiveEvent::SizesFetched);
    r.on_event(ReceiveEvent::Downloaded(TransferStats { bytes_read: 1, elapsed_ms: 1 }));
    r.on_event(ReceiveEvent::Loaded { first: None });
    r.on_event(ReceiveEvent::ExportFailed(TransferError::DestinationExists));
    assert_eq!(r.phase(), ReceivePhase::Failed(TransferError::DestinationExists));
    // A report that does not fit the phase changes nothing.
    assert_eq!(r.on_event(ReceiveEvent::Exported), ReceiveReply::Continue);
    assert_eq!(r.phase(), ReceivePhase::Failed(TransferError::DestinationExists));
}
