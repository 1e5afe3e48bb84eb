//! The receive side after download: where each entry goes, and the export
//! run that places entries without ever overwriting what exists.
use vstd::prelude::*;

use crate::error::TransferError;
use crate::hash::ContentHash;
use crate::path::{first_component, get_export_path, is_safe_name, joined_path, split_on_slash};

verus! {

/// One named entry of a collection.
#[derive(Debug, Clone)]
pub struct CollectionEntry {
    pub name: String,
    pub hash: ContentHash,
}

/// An ordered mapping from relative names to content hashes.
#[derive(Debug, Clone)]
pub struct Collection {
    pub entries: Vec<CollectionEntry>,
}

impl Collection {
    /// Number of entries.
    pub fn len(&self) -> (r: usize)
        ensures
            r == self.entries@.len(),
    {
        self.entries.len()
    }
}

/// The collection holds exactly one entry, exported as a single file.
pub fn is_one_file(collection: &Collection) -> (r: bool)
    ensures
        r == (collection.entries@.len() == 1),
{
    collection.len() == 1
}

/// The path reported once the download is done: the first component of the
/// first entry's name, if there is an entry.
pub fn download_done_path(collection: &Collection) -> (r: Option<String>)
    ensures
        collection.entries@.len() == 0 ==> r is None,
        collection.entries@.len() > 0 ==> (r matches Some(p) && p@ == split_on_slash(
            collection.entries@[0].name@,
        )[0]),
{
    if collection.entries.len() == 0 {
        None
    } else {
        Some(first_component(collection.entries[0].name.as_str()))
    }
}

/// Destination of every entry of a multi-entry collection under `root`;
/// fails if any name holds an unsafe component.
pub fn export_targets(collection: &Collection, root: &str) -> (r: Result<
    Vec<String>,
    TransferError,
>)
    ensures
        r is Ok <==> forall|i: int|
            0 <= i < collection.entries@.len() ==> is_safe_name(
                #[trigger] collection.entries@[i].name@,
            ),
        r matches Ok(t) ==> t@.len() == collection.entries@.len() && forall|i: int|
            0 <= i < t@.len() ==> #[trigger] t@[i]@ == joined_path(
                root@,
                collection.entries@[i].name@,
            ),
        r is Err ==> r == Err::<Vec<String>, TransferError>(TransferError::InvalidPathComponent),
{
    let mut targets: Vec<String> = Vec::new();
    let mut i: usize = 0;
    while i < collection.entries.len()
        invariant
            0 <= i <= collection.entries@.len(),
            targets@.len() == i,
            forall|j: int| 0 <= j < i ==> is_safe_name(#[trigger] collection.entries@[j].name@),
            forall|j: int|
                0 <= j < i ==> #[trigger] targets@[j]@ == joined_path(
                    root@,
                    collection.entries@[j].name@,
                ),
        decreases collection.entries@.len() - i,
    {
        match get_export_path(root, collection.entries[i].name.as_str()) {
            Ok(p) => {
                targets.push(p);
            },
            Err(e) => {
                return Err(e);
            },
        }
        i += 1;
    }
    Ok(targets)
}

/// Destination of the single entry named `name`: the path the user picked,
/// or else `name` under `root`.
pub fn single_file_target(picked: Option<String>, root: &str, name: &str) -> (r: Result<
    String,
    TransferError,
>)
    ensures
        picked is Some ==> r == Ok::<String, TransferError>(picked->0),
        picked is None ==> (r is Ok <==> is_safe_name(name@)),
        picked is None ==> (r matches Ok(p) ==> p@ == joined_path(root@, name@)),
        r is Err ==> r == Err::<String, TransferError>(TransferError::InvalidPathComponent),
{
    match picked {
        Some(p) => Ok(p),
        None => get_export_path(root, name),
    }
}

/// Where an export run stands.
#[derive(Debug, Clone, PartialEq, Eq)]
pub enum ExportPhase {
    /// Entry `i` waits for the check that its destination is free.
    Checking(usize),
    /// Entry `i` may be written: its destination was found free.
    Writing(usize),
    /// Every entry is written; the staging store may be removed.
    Cleaning,
    /// The staging store is removed.
    Completed,
    /// The run stopped; the staging store is kept for a retry.
    Failed(TransferError),
}

/// What the caller is asked to do next.
#[derive(Debug, Clone, PartialEq, Eq)]
pub enum ExportAction {
    /// Report whether destination `i` exists.
    CheckTarget(usize),
    /// Write entry `i` to its destination.
    Write(usize),
    /// Remove the staging store.
    RemoveStaging,
    /// Nothing is left to do.
    Done,
    /// Stop with this failure.
    Stop(TransferError),
}

pub open spec fn action_of(phase: ExportPhase) -> ExportAction {
    match phase {
        ExportPhase::Checking(i) => ExportAction::CheckTarget(i),
        ExportPhase::Writing(i) => ExportAction::Write(i),
        ExportPhase::Cleaning => ExportAction::RemoveStaging,
        ExportPhase::Completed => ExportAction::Done,
        ExportPhase::Failed(e) => ExportAction::Stop(e),
    }
}

/// What the caller reports after performing an action.
#[derive(Debug, Clone, Copy, PartialEq, Eq, Structural)]
pub enum ExportEvent {
    /// The current destination was checked.
    Checked { exists: bool },
    /// The current entry was written.
    Written,
    /// A filesystem operation failed.
    IoFailed,
    /// The staging store was removed.
    StagingRemoved,
}

/// The phase after `event`, in a run over `count` entries. A report that does
/// not fit the phase leaves it unchanged, except a filesystem failure, which
/// fails any run that has not ended.
pub open spec fn export_next(phase: ExportPhase, count: nat, event: ExportEvent) -> ExportPhase {
    match event {
        ExportEvent::Checked { exists } => match phase {
            ExportPhase::Checking(i) => if exists {
                ExportPhase::Failed(TransferError::DestinationExists)
            } else {
                ExportPhase::Writing(i)
            },
            _ => phase,
        },
        ExportEvent::Written => match phase {
            ExportPhase::Writing(i) => if i + 1 < count {
                ExportPhase::Checking((i + 1) as usize)
            } else {
                ExportPhase::Cleaning
            },
            _ => phase,
        },
        ExportEvent::IoFailed => match phase {
            ExportPhase::Completed | ExportPhase::Failed(_) => phase,
            _ => ExportPhase::Failed(TransferError::FilesystemIoError),
        },
        ExportEvent::StagingRemoved => match phase {
            ExportPhase::Cleaning => ExportPhase::Completed,
            _ => phase,
        },
    }
}

/// Drives the export of `count` entries, one at a time: each destination is
/// checked before it is written, and the first one that exists stops the run.
pub struct ExportRun {
    count: usize,
    phase: ExportPhase,
}

impl ExportRun {
    pub closed spec fn count(&self) -> nat {
        self.count as nat
    }

    pub closed spec fn phase(&self) -> ExportPhase {
        self.phase
    }

    /// The current entry, while there is one, is one of the run's entries.
    pub closed spec fn wf(&self) -> bool {
        match self.phase {
            ExportPhase::Checking(i) => i < self.count,
            ExportPhase::Writing(i) => i < self.count,
            _ => true,
        }
    }

    /// A run over `count` entries; with none, only the cleanup is left.
    pub fn new(count: usize) -> (r: Self)
        ensures
            r.wf(),
            r.count() == count,
            r.phase() == (if count == 0 {
                ExportPhase::Cleaning
            } else {
                ExportPhase::Checking(0)
            }),
    {
        ExportRun { count, phase: if count == 0 { ExportPhase::Cleaning } else { ExportPhase::Checking(0) } }
    }

    /// What to do next.
    pub fn next_action(&self) -> (r: ExportAction)
        ensures
            r == action_of(self.phase()),
    {
        match &self.phase {
            ExportPhase::Checking(i) => ExportAction::CheckTarget(*i),
            ExportPhase::Writing(i) => ExportAction::Write(*i),
            ExportPhase::Cleaning => ExportAction::RemoveStaging,
            ExportPhase::Completed => ExportAction::Done,
            ExportPhase::Failed(e) => ExportAction::Stop(e.duplicate()),
        }
    }

    /// Records what the caller reports after performing the last action.
    pub fn on_event(&mut self, event: ExportEvent)
        requires
            old(self).wf(),
        ensures
            final(self).wf(),
            final(self).count() == old(self).count(),
            final(self).phase() == export_next(old(self).phase(), old(self).count(), event),
    {
        match event {
            ExportEvent::Checked { exists } => {
                if let ExportPhase::Checking(i) = self.phase {
                    if exists {
                        self.phase = ExportPhase::Failed(TransferError::DestinationExists);
                    } else {
                        self.phase = ExportPhase::Writing(i);
                    }
                }
            },
            ExportEvent::Written => {
                if let ExportPhase::Writing(i) = self.phase {
                    if i + 1 < self.count {
                        self.phase = ExportPhase::Checking(i + 1);
                    } else {
                        self.phase = ExportPhase::Cleaning;
                    }
                }
            },
            ExportEvent::IoFailed => {
                match self.phase {
                    ExportPhase::Completed | ExportPhase::Failed(_) => {},
                    _ => {
                        self.phase = ExportPhase::Failed(TransferError::FilesystemIoError);
                    },
                }
            },
            ExportEvent::StagingRemoved => {
                if let ExportPhase::Cleaning = self.phase {
                    self.phase = ExportPhase::Completed;
                }
            },
        }
    }
}

/// The phases an export run passes through for a sequence of reports.
pub open spec fn export_replay(phase: ExportPhase, count: nat, evs: Seq<ExportEvent>) -> ExportPhase
    decreases evs.len(),
{
    if evs.len() == 0 {
        phase
    } else {
        export_replay(export_next(phase, count, evs[0]), count, evs.drop_first())
    }
}

/// A destination found to exist stops the run with `DestinationExists`, and
/// whatever is reported afterwards, the run never asks to write again.
pub proof fn lemma_existing_destination_stops(i: usize, count: nat, later: Seq<ExportEvent>)
    ensures
        export_next(ExportPhase::Checking(i), count, ExportEvent::Checked { exists: true })
            == ExportPhase::Failed(TransferError::DestinationExists),
        export_replay(ExportPhase::Failed(TransferError::DestinationExists), count, later)
            == ExportPhase::Failed(TransferError::DestinationExists),
    decreases later.len(),
{
    if later.len() > 0 {
        lemma_existing_destination_stops(i, count, later.drop_first());
    }
}

/// The run asks to write entry `i` only right after the destination of entry
/// `i` was found not to exist.
pub proof fn lemma_write_follows_free_check(phase: ExportPhase, count: nat, event: ExportEvent, i: usize)
    requires
        export_next(phase, count, event) == ExportPhase::Writing(i),
        phase != ExportPhase::Writing(i),
    ensures
        phase == ExportPhase::Checking(i),
        event == (ExportEvent::Checked { exists: false }),
{
}

} // verus!
