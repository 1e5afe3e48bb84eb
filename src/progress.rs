//! Reduction of a transfer's event stream to throttled progress updates.
use vstd::prelude::*;

use std::collections::BTreeMap;

use crate::error::TransferError;

verus! {

/// Width of the window over which the throughput is sampled, in milliseconds.
pub const RATE_WINDOW_MS: u64 = 1000;

/// One low-level event of a download.
#[derive(Debug, Clone, PartialEq, Eq)]
pub enum ProgressEvent {
    /// Entry `id` was found, with its declared size.
    Found { id: u64, size: u64 },
    /// Entry `id` has been received up to `offset`.
    Progress { id: u64, offset: u64 },
    /// Entry `id` is complete.
    Done { id: u64 },
    /// The whole transfer is complete.
    AllDone,
    /// The transfer was aborted.
    Abort { reason: String },
}

/// What the observer is shown while a download runs.
#[derive(Debug, Clone, Copy, PartialEq, Eq)]
pub struct ViewProgress {
    pub total_size: u64,
    pub bytes_per_second: u64,
    pub total_files: usize,
    pub progress_value: u64,
}

/// What the aggregation loop does after one event.
#[derive(Debug, Clone, PartialEq, Eq)]
pub enum ProgressStep {
    /// Wait for the next event.
    Continue,
    /// Report this update, then wait for the next event.
    Update(ViewProgress),
    /// Stop: the transfer is complete.
    Finished,
    /// Stop with this failure.
    Failed(TransferError),
}

/// The state of a [`ProgressTracker`].
pub struct TrackerView {
    pub total_size: u64,
    pub total_files: usize,
    /// Declared sizes of the entries found and not yet done.
    pub pending: Map<u64, u64>,
    /// Bytes of the entries already done.
    pub done: u64,
    pub last_time_ms: u64,
    pub last_progress: u64,
    pub speed: u64,
}

pub open spec fn sat_add(a: u64, b: int) -> u64 {
    if a + b > u64::MAX {
        u64::MAX
    } else {
        (a + b) as u64
    }
}

pub open spec fn seq_sum(s: Seq<u64>) -> int
    decreases s.len(),
{
    if s.len() == 0 {
        0
    } else {
        seq_sum(s.drop_last()) + s.last()
    }
}

/// Sum of the declared sizes, capped at the largest `u64`.
pub open spec fn capped_sum(s: Seq<u64>) -> u64 {
    if seq_sum(s) > u64::MAX {
        u64::MAX
    } else {
        seq_sum(s) as u64
    }
}

/// Number of user-visible files in a manifest of `n` entries: the first entry
/// describes the collection itself.
pub open spec fn files_in_manifest(n: nat) -> nat {
    if n == 0 {
        0
    } else {
        (n - 1) as nat
    }
}

pub open spec fn pending_size(p: Map<u64, u64>, id: u64) -> u64 {
    if p.contains_key(id) {
        p[id]
    } else {
        0
    }
}

/// Throughput between two samples `elapsed_ms` apart, in bytes per second.
pub open spec fn rate_between(from: u64, to: u64, elapsed_ms: u64) -> u64
    recommends
        elapsed_ms > 0,
{
    if to > from {
        ((to - from) * 1000 / (elapsed_ms as int)) as u64
    } else {
        0
    }
}

/// The rate is sampled again once a whole window has passed since the last sample.
pub open spec fn rate_due(last_time_ms: u64, now_ms: u64) -> bool {
    now_ms >= last_time_ms + RATE_WINDOW_MS
}

/// The tracker's state and reply after one event, or after the stream closed (`None`).
pub open spec fn step_spec(v: TrackerView, event: Option<ProgressEvent>, now_ms: u64) -> (
    TrackerView,
    ProgressStep,
) {
    match event {
        None => (v, ProgressStep::Failed(TransferError::ProgressStreamClosed)),
        Some(ProgressEvent::Found { id, size }) => (
            TrackerView { pending: v.pending.insert(id, size), ..v },
            ProgressStep::Continue,
        ),
        Some(ProgressEvent::Progress { id, offset }) => {
            let current = sat_add(v.done, offset as int);
            let v2 = if rate_due(v.last_time_ms, now_ms) {
                TrackerView {
                    speed: rate_between(
                        v.last_progress,
                        current,
                        (now_ms - v.last_time_ms) as u64,
                    ),
                    last_time_ms: now_ms,
                    last_progress: current,
                    ..v
                }
            } else {
                v
            };
            (
                v2,
                ProgressStep::Update(
                    ViewProgress {
                        total_size: v.total_size,
                        bytes_per_second: v2.speed,
                        total_files: v.total_files,
                        progress_value: current,
                    },
                ),
            )
        },
        Some(ProgressEvent::Done { id }) => (
            TrackerView {
                pending: v.pending.remove(id),
                done: sat_add(v.done, pending_size(v.pending, id) as int),
                ..v
            },
            ProgressStep::Continue,
        ),
        Some(ProgressEvent::AllDone) => (v, ProgressStep::Finished),
        Some(ProgressEvent::Abort { reason }) => (
            v,
            ProgressStep::Failed(TransferError::TransferAborted(reason)),
        ),
    }
}

/// Sum of the total of a manifest's declared sizes, capped at the largest `u64`.
pub fn total_size(sizes: &Vec<u64>) -> (r: u64)
    ensures
        r == capped_sum(sizes@),
{
    let mut acc: u64 = 0;
    let mut i: usize = 0;
    while i < sizes.len()
        invariant
            0 <= i <= sizes@.len(),
            acc == capped_sum(sizes@.take(i as int)),
            seq_sum(sizes@.take(i as int)) >= 0,
        decreases sizes@.len() - i,
    {
        assert(sizes@.take(i + 1).drop_last() =~= sizes@.take(i as int));
        assert(seq_sum(sizes@.take(i + 1)) == seq_sum(sizes@.take(i as int)) + sizes@[i as int]);
        acc = acc.saturating_add(sizes[i]);
        i += 1;
    }
    assert(sizes@.take(i as int) =~= sizes@);
    acc
}

/// Number of user-visible files described by a manifest's declared sizes.
pub fn total_files(sizes: &Vec<u64>) -> (r: usize)
    ensures
        r == files_in_manifest(sizes@.len()),
{
    sizes.len().saturating_sub(1)
}

/// Turns the event stream of one download into throttled progress updates.
pub struct ProgressTracker {
    total_size: u64,
    total_files: usize,
    sizes: BTreeMap<u64, u64>,
    total_done: u64,
    last_time_ms: u64,
    last_progress: u64,
    speed: u64,
}

impl View for ProgressTracker {
    type V = TrackerView;

    closed spec fn view(&self) -> TrackerView {
        TrackerView {
            total_size: self.total_size,
            total_files: self.total_files,
            pending: self.sizes@,
            done: self.total_done,
            last_time_ms: self.last_time_ms,
            last_progress: self.last_progress,
            speed: self.speed,
        }
    }
}

impl ProgressTracker {
    /// A tracker for a manifest with these declared sizes, started at time 0.
    pub fn new(manifest_sizes: &Vec<u64>) -> (r: Self)
        ensures
            r@.total_size == capped_sum(manifest_sizes@),
            r@.total_files == files_in_manifest(manifest_sizes@.len()),
            r@.pending == Map::<u64, u64>::empty(),
            r@.done == 0,
            r@.last_time_ms == 0,
            r@.last_progress == 0,
            r@.speed == 0,
    {
        ProgressTracker {
            total_size: total_size(manifest_sizes),
            total_files: total_files(manifest_sizes),
            sizes: BTreeMap::new(),
            total_done: 0,
            last_time_ms: 0,
            last_progress: 0,
            speed: 0,
        }
    }

    /// Bytes of the entries already complete.
    pub fn bytes_done(&self) -> (r: u64)
        ensures
            r == self@.done,
    {
        self.total_done
    }

    /// Takes the next event (`None` once the stream has closed), received at
    /// `now_ms` milliseconds after the tracker was made.
    pub fn step(&mut self, event: Option<ProgressEvent>, now_ms: u64) -> (r: ProgressStep)
        ensures
            (final(self)@, r) == step_spec(old(self)@, event, now_ms),
    {
        broadcast use vstd::std_specs::btree::group_btree_axioms;
        broadcast use vstd::laws_cmp::group_laws_cmp;
        match event {
            None => ProgressStep::Failed(TransferError::ProgressStreamClosed),
            Some(ProgressEvent::Found { id, size }) => {
                self.sizes.insert(id, size);
                ProgressStep::Continue
            },
            Some(ProgressEvent::Progress { id, offset }) => {
                let current = self.total_done.saturating_add(offset);
                if now_ms >= self.last_time_ms && now_ms - self.last_time_ms >= RATE_WINDOW_MS {
                    let elapsed = now_ms - self.last_time_ms;
                    self.speed = rate_of(self.last_progress, current, elapsed);
                    self.last_progress = current;
                    self.last_time_ms = now_ms;
                }
                ProgressStep::Update(
                    ViewProgress {
                        total_size: self.total_size,
                        bytes_per_second: self.speed,
                        total_files: self.total_files,
                        progress_value: current,
                    },
                )
            },
            Some(ProgressEvent::Done { id }) => {
                let size = match self.sizes.remove(&id) {
                    Some(s) => s,
                    None => 0,
                };
                self.total_done = self.total_done.saturating_add(size);
                ProgressStep::Continue
            },
            Some(ProgressEvent::AllDone) => ProgressStep::Finished,
            Some(ProgressEvent::Abort { reason }) => ProgressStep::Failed(
                TransferError::TransferAborted(reason),
            ),
        }
    }
}

/// Bytes per second between two samples taken `elapsed_ms` apart.
fn rate_of(from: u64, to: u64, elapsed_ms: u64) -> (r: u64)
    requires
        elapsed_ms >= RATE_WINDOW_MS,
    ensures
        r == rate_between(from, to, elapsed_ms),
{
    if to > from {
        let diff = to - from;
        let scaled = (diff as u128) * 1000;
        proof {
            vstd::arithmetic::div_mod::lemma_div_is_ordered_by_denominator(
                diff * 1000,
                1000,
                elapsed_ms as int,
            );
            vstd::arithmetic::div_mod::lemma_div_by_multiple(diff as int, 1000);
        }
        (scaled / (elapsed_ms as u128)) as u64
    } else {
        0
    }
}

/// Sum of the values of a finite map.
pub open spec fn map_sum(m: Map<u64, u64>) -> int
    decreases m.dom().len(),
{
    if m.dom().finite() && m.dom().len() > 0 {
        let k = m.dom().choose();
        m[k] + map_sum(m.remove(k))
    } else {
        0
    }
}

/// Size declared by `e` if it is a `Found` event, else zero.
pub open spec fn found_size(e: ProgressEvent) -> int {
    match e {
        ProgressEvent::Found { size, .. } => size as int,
        _ => 0,
    }
}

/// Sum of the sizes declared by the `Found` events of `evs`.
pub open spec fn found_sum(evs: Seq<(ProgressEvent, u64)>) -> int
    decreases evs.len(),
{
    if evs.len() == 0 {
        0
    } else {
        found_size(evs[0].0) + found_sum(evs.drop_first())
    }
}

pub open spec fn is_found_of(e: ProgressEvent, k: u64) -> bool {
    match e {
        ProgressEvent::Found { id, .. } => id == k,
        _ => false,
    }
}

pub open spec fn is_done_of(e: ProgressEvent, k: u64) -> bool {
    match e {
        ProgressEvent::Done { id } => id == k,
        _ => false,
    }
}

pub open spec fn is_entry_event(e: ProgressEvent) -> bool {
    match e {
        ProgressEvent::Found { .. } | ProgressEvent::Progress { .. } | ProgressEvent::Done { .. } => true,
        _ => false,
    }
}

/// The tracker's state after taking each `(event, time)` of `evs` in order.
pub open spec fn replay(v: TrackerView, evs: Seq<(ProgressEvent, u64)>) -> TrackerView
    decreases evs.len(),
{
    if evs.len() == 0 {
        v
    } else {
        replay(step_spec(v, Some(evs[0].0), evs[0].1).0, evs.drop_first())
    }
}

proof fn lemma_map_sum_remove(m: Map<u64, u64>, k: u64)
    requires
        m.dom().finite(),
        m.contains_key(k),
    ensures
        map_sum(m) == m[k] + map_sum(m.remove(k)),
        map_sum(m.remove(k)) >= 0,
    decreases m.dom().len(),
{
    let c = m.dom().choose();
    if c != k {
        lemma_map_sum_remove(m.remove(c), k);
        lemma_map_sum_remove(m.remove(k), c);
        assert(m.remove(c).remove(k) =~= m.remove(k).remove(c));
    } else {
        lemma_map_sum_nonneg(m.remove(k));
    }
}

proof fn lemma_map_sum_nonneg(m: Map<u64, u64>)
    ensures
        map_sum(m) >= 0,
    decreases m.dom().len(),
{
    if m.dom().finite() && m.dom().len() > 0 {
        lemma_map_sum_nonneg(m.remove(m.dom().choose()));
    }
}

proof fn lemma_found_sum_nonneg(evs: Seq<(ProgressEvent, u64)>)
    ensures
        found_sum(evs) >= 0,
    decreases evs.len(),
{
    if evs.len() > 0 {
        lemma_found_sum_nonneg(evs.drop_first());
    }
}

proof fn lemma_replay_accounts(v: TrackerView, evs: Seq<(ProgressEvent, u64)>)
    requires
        v.pending.dom().finite(),
        v.done + map_sum(v.pending) + found_sum(evs) <= u64::MAX,
        forall|i: int| 0 <= i < evs.len() ==> is_entry_event(#[trigger] evs[i].0),
        forall|i: int, j: int, k: u64|
            #![trigger is_found_of(evs[i].0, k), is_found_of(evs[j].0, k)]
            0 <= i < j < evs.len() && is_found_of(evs[i].0, k) ==> !is_found_of(evs[j].0, k),
        forall|i: int, k: u64|
            0 <= i < evs.len() && #[trigger] is_found_of(evs[i].0, k) ==> !v.pending.contains_key(
                k,
            ),
    ensures
        replay(v, evs).pending.dom().finite(),
        replay(v, evs).done + map_sum(replay(v, evs).pending) == v.done + map_sum(v.pending)
            + found_sum(evs),
        forall|k: u64|
            #[trigger] replay(v, evs).pending.contains_key(k) ==> (v.pending.contains_key(k) && (
            forall|j: int| 0 <= j < evs.len() ==> !is_done_of(#[trigger] evs[j].0, k))) || (
            exists|i: int|
                0 <= i < evs.len() && #[trigger] is_found_of(evs[i].0, k) && (forall|j: int|
                    i < j < evs.len() ==> !is_done_of(#[trigger] evs[j].0, k))),
    decreases evs.len(),
{
    if evs.len() > 0 {
        let e = evs[0].0;
        let v1 = step_spec(v, Some(e), evs[0].1).0;
        let rest = evs.drop_first();
        lemma_map_sum_nonneg(v.pending);
        lemma_found_sum_nonneg(rest);
        assert(is_entry_event(evs[0].0));
        match e {
            ProgressEvent::Found { id, size } => {
                assert(is_found_of(evs[0].0, id));
                assert(!v.pending.contains_key(id));
                lemma_map_sum_remove(v.pending.insert(id, size), id);
                assert(v.pending.insert(id, size).remove(id) =~= v.pending);
            },
            ProgressEvent::Done { id } => {
                if v.pending.contains_key(id) {
                    lemma_map_sum_remove(v.pending, id);
                } else {
                    assert(v.pending.remove(id) =~= v.pending);
                }
            },
            _ => {},
        }
        assert(v1.done + map_sum(v1.pending) == v.done + map_sum(v.pending) + found_size(e));
        assert forall|i: int| 0 <= i < rest.len() implies is_entry_event(#[trigger] rest[i].0) by {
            assert(rest[i] == evs[i + 1]);
        }
        assert forall|i: int, j: int, k: u64|
            #![trigger is_found_of(rest[i].0, k), is_found_of(rest[j].0, k)]
            0 <= i < j < rest.len() && is_found_of(rest[i].0, k) implies !is_found_of(rest[j].0, k) by {
            assert(rest[i] == evs[i + 1]);
            assert(rest[j] == evs[j + 1]);
        }
        assert forall|i: int, k: u64|
            0 <= i < rest.len() && #[trigger] is_found_of(rest[i].0, k) implies !v1.pending.contains_key(
                k,
            ) by {
            assert(rest[i] == evs[i + 1]);
            assert(is_found_of(evs[i + 1].0, k));
            if is_found_of(evs[0].0, k) {
                assert(!is_found_of(evs[i + 1].0, k));
            }
        }
        lemma_replay_accounts(v1, rest);
        let fin = replay(v, evs);
        assert(fin == replay(v1, rest));
        assert forall|k: u64| #[trigger] fin.pending.contains_key(k) implies (v.pending.contains_key(k)
            && (forall|j: int| 0 <= j < evs.len() ==> !is_done_of(#[trigger] evs[j].0, k))) || (
        exists|i: int|
            0 <= i < evs.len() && #[trigger] is_found_of(evs[i].0, k) && (forall|j: int|
                i < j < evs.len() ==> !is_done_of(#[trigger] evs[j].0, k))) by {
            if v1.pending.contains_key(k) && (forall|j: int|
                0 <= j < rest.len() ==> !is_done_of(#[trigger] rest[j].0, k)) {
                assert forall|j: int| 0 < j < evs.len() implies !is_done_of(#[trigger] evs[j].0, k) by {
                    assert(evs[j] == rest[j - 1]);
                }
                if is_found_of(e, k) {
                    assert(is_found_of(evs[0].0, k));
                } else {
                    assert(!is_done_of(evs[0].0, k));
                }
            } else {
                let i = choose|i: int|
                    0 <= i < rest.len() && #[trigger] is_found_of(rest[i].0, k) && (forall|j: int|
                        i < j < rest.len() ==> !is_done_of(#[trigger] rest[j].0, k));
                assert(rest[i] == evs[i + 1]);
                assert forall|j: int| i + 1 < j < evs.len() implies !is_done_of(#[trigger] evs[j].0, k) by {
                    assert(evs[j] == rest[j - 1]);
                }
                assert(is_found_of(evs[i + 1].0, k));
            }
        }
    }
}

/// Once every entry that was found has been reported done, the bytes counted
/// as done are exactly the sum of all declared sizes. This holds for any
/// interleaving of `Found`, `Progress` and `Done` events, as long as each entry
/// is found once and the sizes sum within `u64`.
pub proof fn lemma_done_bytes_total(v: TrackerView, evs: Seq<(ProgressEvent, u64)>)
    requires
        v.pending == Map::<u64, u64>::empty(),
        v.done == 0,
        found_sum(evs) <= u64::MAX,
        forall|i: int| 0 <= i < evs.len() ==> is_entry_event(#[trigger] evs[i].0),
        forall|i: int, j: int, k: u64|
            #![trigger is_found_of(evs[i].0, k), is_found_of(evs[j].0, k)]
            0 <= i < j < evs.len() && is_found_of(evs[i].0, k) ==> !is_found_of(evs[j].0, k),
        forall|i: int, k: u64|
            0 <= i < evs.len() && #[trigger] is_found_of(evs[i].0, k) ==> exists|j: int|
                i < j < evs.len() && #[trigger] is_done_of(evs[j].0, k),
    ensures
        replay(v, evs).done == found_sum(evs),
        replay(v, evs).pending == Map::<u64, u64>::empty(),
{
    assert(v.pending.dom() =~= Set::<u64>::empty());
    lemma_replay_accounts(v, evs);
    let fin = replay(v, evs);
    assert forall|k: u64| !fin.pending.contains_key(k) by {
        if fin.pending.contains_key(k) {
            let i = choose|i: int|
                0 <= i < evs.len() && #[trigger] is_found_of(evs[i].0, k) && (forall|j: int|
                    i < j < evs.len() ==> !is_done_of(#[trigger] evs[j].0, k));
            let j = choose|j: int| i < j < evs.len() && #[trigger] is_done_of(evs[j].0, k);
            assert(false);
        }
    }
    assert(fin.pending.dom() =~= Set::<u64>::empty());
    assert(fin.pending =~= Map::<u64, u64>::empty());
}

pub open spec fn is_found_with(e: ProgressEvent, k: u64, size: u64) -> bool {
    match e {
        ProgressEvent::Found { id, size: s } => id == k && s == size,
        _ => false,
    }
}

proof fn lemma_replay_keeps(v: TrackerView, evs: Seq<(ProgressEvent, u64)>)
    requires
        forall|i: int, j: int, k: u64|
            #![trigger is_found_of(evs[i].0, k), is_found_of(evs[j].0, k)]
            0 <= i < j < evs.len() && is_found_of(evs[i].0, k) ==> !is_found_of(evs[j].0, k),
    ensures
        forall|k: u64|
            #[trigger] v.pending.contains_key(k) && (forall|j: int|
                0 <= j < evs.len() ==> !is_done_of(#[trigger] evs[j].0, k) && !is_found_of(
                    evs[j].0,
                    k,
                )) ==> replay(v, evs).pending.contains_key(k) && replay(v, evs).pending[k]
                == v.pending[k],
        forall|i: int, k: u64, size: u64|
            0 <= i < evs.len() && #[trigger] is_found_with(evs[i].0, k, size) && (forall|j: int|
                i < j < evs.len() ==> !is_done_of(#[trigger] evs[j].0, k)) ==> replay(
                v,
                evs,
            ).pending.contains_key(k) && replay(v, evs).pending[k] == size,
    decreases evs.len(),
{
    if evs.len() > 0 {
        let e = evs[0].0;
        let v1 = step_spec(v, Some(e), evs[0].1).0;
        let rest = evs.drop_first();
        assert forall|i: int, j: int, k: u64|
            #![trigger is_found_of(rest[i].0, k), is_found_of(rest[j].0, k)]
            0 <= i < j < rest.len() && is_found_of(rest[i].0, k) implies !is_found_of(rest[j].0, k) by {
            assert(rest[i] == evs[i + 1]);
            assert(rest[j] == evs[j + 1]);
        }
        lemma_replay_keeps(v1, rest);
        assert(replay(v, evs) == replay(v1, rest));
        assert forall|k: u64|
            #[trigger] v.pending.contains_key(k) && (forall|j: int|
                0 <= j < evs.len() ==> !is_done_of(#[trigger] evs[j].0, k) && !is_found_of(
                    evs[j].0,
                    k,
                )) implies replay(v, evs).pending.contains_key(k) && replay(v, evs).pending[k]
                == v.pending[k] by {
            assert(!is_done_of(evs[0].0, k) && !is_found_of(evs[0].0, k));
            assert(v1.pending.contains_key(k) && v1.pending[k] == v.pending[k]);
            assert forall|j: int| 0 <= j < rest.len() implies !is_done_of(#[trigger] rest[j].0, k)
                && !is_found_of(rest[j].0, k) by {
                assert(rest[j] == evs[j + 1]);
                assert(!is_done_of(evs[j + 1].0, k) && !is_found_of(evs[j + 1].0, k));
            }
        }
        assert forall|i: int, k: u64, size: u64|
            0 <= i < evs.len() && #[trigger] is_found_with(evs[i].0, k, size) && (forall|j: int|
                i < j < evs.len() ==> !is_done_of(#[trigger] evs[j].0, k)) implies replay(
                v,
                evs,
            ).pending.contains_key(k) && replay(v, evs).pending[k] == size by {
            if i == 0 {
                assert(is_found_of(evs[0].0, k));
                assert(v1.pending.contains_key(k) && v1.pending[k] == size);
                assert forall|j: int| 0 <= j < rest.len() implies !is_done_of(
                    #[trigger] rest[j].0,
                    k,
                ) && !is_found_of(rest[j].0, k) by {
                    assert(rest[j] == evs[j + 1]);
                    assert(!is_done_of(evs[j + 1].0, k));
                    assert(!is_found_of(evs[j + 1].0, k));
                }
            } else {
                assert(rest[i - 1] == evs[i]);
                assert(is_found_with(rest[i - 1].0, k, size));
                assert forall|j: int| i - 1 < j < rest.len() implies !is_done_of(
                    #[trigger] rest[j].0,
                    k,
                ) by {
                    assert(rest[j] == evs[j + 1]);
                }
            }
        }
    }
}

/// When every entry but the last has been reported done, the progress update
/// for the last entry at its full declared size reports the sum of all
/// declared sizes: the final bytes-done value shown before the transfer ends.
pub proof fn lemma_last_progress_reports_total(
    v: TrackerView,
    evs: Seq<(ProgressEvent, u64)>,
    id: u64,
    size: u64,
    now_ms: u64,
)
    requires
        v.pending == Map::<u64, u64>::empty(),
        v.done == 0,
        found_sum(evs) <= u64::MAX,
        forall|i: int| 0 <= i < evs.len() ==> is_entry_event(#[trigger] evs[i].0),
        forall|i: int, j: int, k: u64|
            #![trigger is_found_of(evs[i].0, k), is_found_of(evs[j].0, k)]
            0 <= i < j < evs.len() && is_found_of(evs[i].0, k) ==> !is_found_of(evs[j].0, k),
        exists|i: int|
            0 <= i < evs.len() && #[trigger] is_found_with(evs[i].0, id, size) && (forall|j: int|
                i < j < evs.len() ==> !is_done_of(#[trigger] evs[j].0, id)),
        forall|i: int, k: u64|
            0 <= i < evs.len() && #[trigger] is_found_of(evs[i].0, k) && k != id ==> exists|j: int|
                i < j < evs.len() && #[trigger] is_done_of(evs[j].0, k),
    ensures
        match step_spec(replay(v, evs), Some(ProgressEvent::Progress { id, offset: size }), now_ms).1 {
            ProgressStep::Update(p) => p.progress_value == found_sum(evs),
            _ => false,
        },
{
    assert(v.pending.dom() =~= Set::<u64>::empty());
    lemma_replay_accounts(v, evs);
    lemma_replay_keeps(v, evs);
    let fin = replay(v, evs);
    assert(fin.pending.contains_key(id) && fin.pending[id] == size);
    assert forall|k: u64| #[trigger] fin.pending.contains_key(k) implies k == id by {
        if k != id {
            let i = choose|i: int|
                0 <= i < evs.len() && #[trigger] is_found_of(evs[i].0, k) && (forall|j: int|
                    i < j < evs.len() ==> !is_done_of(#[trigger] evs[j].0, k));
            let j = choose|j: int| i < j < evs.len() && #[trigger] is_done_of(evs[j].0, k);
            assert(false);
        }
    }
    lemma_map_sum_remove(fin.pending, id);
    assert(fin.pending.remove(id).dom() =~= Set::<u64>::empty());
    assert(map_sum(fin.pending.remove(id)) == 0);
}

} // verus!
