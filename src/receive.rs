//! The receive side from ticket to exported files: the phases of one receive
//! and the reports it owes the observer, in order.
use vstd::prelude::*;

use crate::error::TransferError;
use crate::interconnect::{TransferStats, ViewUpdate};

verus! {

/// Where a receive stands.
#[derive(Debug, Clone, PartialEq, Eq)]
pub enum ReceivePhase {
    Connecting,
    Negotiating,
    Downloading,
    /// The download is done; the collection is being loaded from staging.
    Loading(TransferStats),
    Exporting,
    Completed,
    Failed(TransferError),
}

/// What the caller reports after the work of the current phase.
#[derive(Debug, Clone, PartialEq, Eq)]
pub enum ReceiveEvent {
    Connected,
    ConnectFailed,
    /// The size manifest arrived.
    SizesFetched,
    SizesFailed,
    /// The download completed with these totals.
    Downloaded(TransferStats),
    /// The download was aborted or its progress failed.
    DownloadFailed(TransferError),
    /// The collection was loaded; `first` is the first component of its first name.
    Loaded { first: Option<String> },
    Exported,
    ExportFailed(TransferError),
}

/// What the caller does after an event.
#[derive(Debug, Clone, PartialEq, Eq)]
pub enum ReceiveReply {
    Continue,
    /// Report this update to the observer.
    Report(ViewUpdate),
}

/// The phase after `event`; an event that does not fit the phase changes nothing.
pub open spec fn receive_next(phase: ReceivePhase, event: ReceiveEvent) -> ReceivePhase {
    match (phase, event) {
        (ReceivePhase::Connecting, ReceiveEvent::Connected) => ReceivePhase::Negotiating,
        (ReceivePhase::Connecting, ReceiveEvent::ConnectFailed) => ReceivePhase::Failed(
            TransferError::ConnectionFailed,
        ),
        (ReceivePhase::Negotiating, ReceiveEvent::SizesFetched) => ReceivePhase::Downloading,
        (ReceivePhase::Negotiating, ReceiveEvent::SizesFailed) => ReceivePhase::Failed(
            TransferError::ManifestFetchFailed,
        ),
        (ReceivePhase::Downloading, ReceiveEvent::Downloaded(stats)) => ReceivePhase::Loading(stats),
        (ReceivePhase::Downloading, ReceiveEvent::DownloadFailed(e)) => ReceivePhase::Failed(e),
        (ReceivePhase::Loading(_), ReceiveEvent::Loaded { .. }) => ReceivePhase::Exporting,
        (ReceivePhase::Exporting, ReceiveEvent::Exported) => ReceivePhase::Completed,
        (ReceivePhase::Exporting, ReceiveEvent::ExportFailed(e)) => ReceivePhase::Failed(e),
        (p, _) => p,
    }
}

/// The reply owed for `event` in `phase`: the totals without a path as soon
/// as the download is done, then the totals with the first path component
/// once the collection is loaded; nothing otherwise.
pub open spec fn receive_reply(phase: ReceivePhase, event: ReceiveEvent, reply: ReceiveReply) -> bool {
    match (phase, event) {
        (ReceivePhase::Downloading, ReceiveEvent::Downloaded(stats)) => match reply {
            ReceiveReply::Report(ViewUpdate::DownloadDone { stats: s, path }) => s == stats
                && path@.len() == 0,
            _ => false,
        },
        (ReceivePhase::Loading(stats), ReceiveEvent::Loaded { first: Some(path) }) => reply
            == ReceiveReply::Report(ViewUpdate::DownloadDone { stats, path }),
        _ => reply == ReceiveReply::Continue,
    }
}

/// The decisions of one receive.
pub struct ReceiveSession {
    phase: ReceivePhase,
}

impl ReceiveSession {
    pub closed spec fn phase_spec(&self) -> ReceivePhase {
        self.phase
    }

    /// A receive about to connect.
    pub fn new() -> (r: Self)
        ensures
            r.phase_spec() == ReceivePhase::Connecting,
    {
        ReceiveSession { phase: ReceivePhase::Connecting }
    }

    /// The current phase.
    pub fn phase(&self) -> (r: ReceivePhase)
        ensures
            r == self.phase_spec(),
    {
        match &self.phase {
            ReceivePhase::Connecting => ReceivePhase::Connecting,
            ReceivePhase::Negotiating => ReceivePhase::Negotiating,
            ReceivePhase::Downloading => ReceivePhase::Downloading,
            ReceivePhase::Loading(s) => ReceivePhase::Loading(*s),
            ReceivePhase::Exporting => ReceivePhase::Exporting,
            ReceivePhase::Completed => ReceivePhase::Completed,
            ReceivePhase::Failed(e) => ReceivePhase::Failed(e.duplicate()),
        }
    }

    /// Takes one event and says what to report.
    pub fn on_event(&mut self, event: ReceiveEvent) -> (r: ReceiveReply)
        ensures
            final(self).phase_spec() == receive_next(old(self).phase_spec(), event),
            receive_reply(old(self).phase_spec(), event, r),
    {
        let ghost old_phase = self.phase;
        let ghost ev = event;
        let current = self.phase();
        let (next, reply) = match (current, event) {
            (ReceivePhase::Connecting, ReceiveEvent::Connected) => (
                ReceivePhase::Negotiating,
                ReceiveReply::Continue,
            ),
            (ReceivePhase::Connecting, ReceiveEvent::ConnectFailed) => (
                ReceivePhase::Failed(TransferError::ConnectionFailed),
                ReceiveReply::Continue,
            ),
            (ReceivePhase::Negotiating, ReceiveEvent::SizesFetched) => (
                ReceivePhase::Downloading,
                ReceiveReply::Continue,
            ),
            (ReceivePhase::Negotiating, ReceiveEvent::SizesFailed) => (
                ReceivePhase::Failed(TransferError::ManifestFetchFailed),
                ReceiveReply::Continue,
            ),
            (ReceivePhase::Downloading, ReceiveEvent::Downloaded(stats)) => (
                ReceivePhase::Loading(stats),
                ReceiveReply::Report(ViewUpdate::DownloadDone { stats, path: String::new() }),
            ),
            (ReceivePhase::Downloading, ReceiveEvent::DownloadFailed(e)) => (
                ReceivePhase::Failed(e),
                ReceiveReply::Continue,
            ),
            (ReceivePhase::Loading(stats), ReceiveEvent::Loaded { first }) => (
                ReceivePhase::Exporting,
                match first {
                    Some(path) => ReceiveReply::Report(ViewUpdate::DownloadDone { stats, path }),
                    None => ReceiveReply::Continue,
                },
            ),
            (ReceivePhase::Exporting, ReceiveEvent::Exported) => (
                ReceivePhase::Completed,
                ReceiveReply::Continue,
            ),
            (ReceivePhase::Exporting, ReceiveEvent::ExportFailed(e)) => (
                ReceivePhase::Failed(e),
                ReceiveReply::Continue,
            ),
            (p, _) => (p, ReceiveReply::Continue),
        };
        self.phase = next;
        reply
    }
}

} // verus!
