use std::collections::BTreeSet;

use vstd::prelude::*;
use vstd::std_specs::iter::IteratorSpec;

use crate::db::DbError;
use crate::download::manager::{DownloadEvent, DownloadManagerError};
use crate::download::model::{DownloadId, DownloadStatus, QueueId};
use crate::queue::model::{Queue, QueueItem};
use crate::text::{push_str, signed_decimal};

verus! {

/// Default bounded queue command channel size.
pub const DEFAULT_QUEUE_COMMAND_BUFFER: usize = 64;

/// Errors produced by queue manager APIs.
#[derive(Debug, Clone, PartialEq, Eq)]
pub enum QueueManagerError {
    /// Database operation failed.
    Db(DbError),
    /// Download manager command failed.
    Download(DownloadManagerError),
    /// Queue manager command channel is closed.
    Stopped,
    /// Command response channel closed before a reply was sent.
    ResponseDropped,
    /// Requested queue does not exist.
    QueueNotFound(QueueId),
    /// Requested download is not in the queue.
    QueueItemNotFound { queue_id: QueueId, download_id: DownloadId },
    /// Reorder request omitted or duplicated queue items.
    InvalidReorder,
    /// System clock is earlier than Unix epoch.
    ClockBeforeEpoch,
    /// System clock value does not fit in database timestamp range.
    ClockOutOfRange,
}

/// Result type returned by queue manager APIs.
pub type QueueManagerResult<T> = Result<T, QueueManagerError>;

impl QueueManagerError {
    /// The error message, as `Display` shows it.
    pub open spec fn message(&self) -> Seq<char> {
        match self {
            QueueManagerError::Db(e) => e.message(),
            QueueManagerError::Download(e) => e.message(),
            QueueManagerError::Stopped => "queue manager is stopped"@,
            QueueManagerError::ResponseDropped => "queue manager response was dropped"@,
            QueueManagerError::QueueNotFound(id) => "queue `"@ + signed_decimal(id@ as int)
                + "` not found"@,
            QueueManagerError::QueueItemNotFound { queue_id, download_id } => "download `"@
                + signed_decimal(download_id@ as int) + "` not found in queue `"@
                + signed_decimal(queue_id@ as int) + "`"@,
            QueueManagerError::InvalidReorder =>
                "queue reorder must contain every queued download exactly once"@,
            QueueManagerError::ClockBeforeEpoch => "system clock is earlier than Unix epoch"@,
            QueueManagerError::ClockOutOfRange => "system clock timestamp is out of range"@,
        }
    }

    /// The error message, as `Display` shows it.
    pub fn to_string(&self) -> (r: String)
        ensures
            r@ == self.message(),
    {
        let mut r = String::new();
        match self {
            QueueManagerError::Db(e) => {
                let m = e.to_string();
                push_str(&mut r, m.as_str());
            },
            QueueManagerError::Download(e) => {
                let m = e.to_string();
                push_str(&mut r, m.as_str());
            },
            QueueManagerError::Stopped => push_str(&mut r, "queue manager is stopped"),
            QueueManagerError::ResponseDropped => push_str(
                &mut r,
                "queue manager response was dropped",
            ),
            QueueManagerError::QueueNotFound(id) => {
                push_str(&mut r, "queue `");
                let digits = id.to_string();
                push_str(&mut r, digits.as_str());
                push_str(&mut r, "` not found");
            },
            QueueManagerError::QueueItemNotFound { queue_id, download_id } => {
                push_str(&mut r, "download `");
                let digits = download_id.to_string();
                push_str(&mut r, digits.as_str());
                push_str(&mut r, "` not found in queue `");
                let digits = queue_id.to_string();
                push_str(&mut r, digits.as_str());
                push_str(&mut r, "`");
            },
            QueueManagerError::InvalidReorder => push_str(
                &mut r,
                "queue reorder must contain every queued download exactly once",
            ),
            QueueManagerError::ClockBeforeEpoch => push_str(
                &mut r,
                "system clock is earlier than Unix epoch",
            ),
            QueueManagerError::ClockOutOfRange => push_str(
                &mut r,
                "system clock timestamp is out of range",
            ),
        }
        r
    }
}

/// Queue events emitted by the queue manager.
#[allow(inconsistent_fields)]
#[derive(Debug, Clone, PartialEq, Eq)]
pub enum QueueEvent {
    /// Default main queue was ensured during boot.
    Booted { queue_id: QueueId },
    /// Queue items changed.
    ItemsChanged { queue_id: QueueId, items: Vec<QueueItem> },
    /// Queue started.
    Started { queue_id: QueueId },
    /// Queue stopped.
    Stopped { queue_id: QueueId },
    /// Download was started by queue scheduling.
    DownloadStarted { queue_id: QueueId, download_id: DownloadId },
    /// Download was removed from queue after completion/removal.
    DownloadFinished { queue_id: QueueId, download_id: DownloadId },
    /// Queue manager stopped.
    Shutdown,
}

/// Queue manager runtime options.
#[derive(Debug, Clone, Copy, PartialEq, Eq, Structural)]
pub struct QueueManagerOptions {
    /// Bounded command channel capacity.
    pub command_buffer: usize,
}

impl Default for QueueManagerOptions {
    fn default() -> (r: Self)
        ensures
            r.command_buffer == DEFAULT_QUEUE_COMMAND_BUFFER,
    {
        QueueManagerOptions { command_buffer: DEFAULT_QUEUE_COMMAND_BUFFER }
    }
}

impl QueueManagerOptions {
    /// Capacity of the event channel: the command capacity, and at least eight.
    pub fn event_buffer(&self) -> (r: usize)
        ensures
            r == (if self.command_buffer >= 8 {
                self.command_buffer
            } else {
                8
            }),
    {
        if self.command_buffer >= 8 {
            self.command_buffer
        } else {
            8
        }
    }
}

/// Only the reserved main queue is scheduled; any other id is unknown to the runtime.
pub fn check_scheduled_queue(queue_id: QueueId) -> (r: QueueManagerResult<()>)
    ensures
        r == (if queue_id@ == 0 {
            Ok::<(), QueueManagerError>(())
        } else {
            Err::<(), QueueManagerError>(QueueManagerError::QueueNotFound(queue_id))
        }),
{
    if queue_id.get() == 0 {
        Ok(())
    } else {
        Err(QueueManagerError::QueueNotFound(queue_id))
    }
}

/// What a download event means for queue membership: the download it concerns, and
/// whether that download has left for good (completed or removed).
pub open spec fn terminal_of(event: DownloadEvent) -> Option<(DownloadId, bool)> {
    match event {
        DownloadEvent::DownloadChanged { item } => Some(
            (
                item.id,
                item.status == DownloadStatus::Completed || item.status == DownloadStatus::Removed,
            ),
        ),
        DownloadEvent::DownloadPaused { item } => Some(
            (
                item.id,
                item.status == DownloadStatus::Completed || item.status == DownloadStatus::Removed,
            ),
        ),
        DownloadEvent::DownloadResumed { item } => Some(
            (
                item.id,
                item.status == DownloadStatus::Completed || item.status == DownloadStatus::Removed,
            ),
        ),
        DownloadEvent::DownloadRemoved { id } => Some((id, true)),
        _ => None,
    }
}

/// The download an event concerns and whether it has left for good; `None` for events
/// that do not concern queue membership.
pub fn terminal_download(event: &DownloadEvent) -> (r: Option<(DownloadId, bool)>)
    ensures
        r == terminal_of(*event),
{
    match event {
        DownloadEvent::DownloadChanged { item } | DownloadEvent::DownloadPaused { item }
        | DownloadEvent::DownloadResumed { item } => Some(
            (
                item.id,
                item.status == DownloadStatus::Completed || item.status == DownloadStatus::Removed,
            ),
        ),
        DownloadEvent::DownloadRemoved { id } => Some((*id, true)),
        _ => None,
    }
}

/// The downloads of queue items, in order.
pub open spec fn ids_of(items: Seq<QueueItem>) -> Seq<DownloadId> {
    items.map_values(|item: QueueItem| item.download_id)
}

/// `ids` lists every queued download exactly once.
pub open spec fn is_reorder_of(existing: Seq<QueueItem>, ids: Seq<DownloadId>) -> bool {
    &&& existing.len() == ids.len()
    &&& ids.no_duplicates()
    &&& forall|d: DownloadId| ids.contains(d) <==> ids_of(existing).contains(d)
}

/// Whether a queue holds a download.
fn holds_download(items: &[QueueItem], download_id: DownloadId) -> (r: bool)
    ensures
        r == ids_of(items@).contains(download_id),
{
    let mut i: usize = 0;
    while i < items.len()
        invariant
            i <= items@.len(),
            forall|j: int| 0 <= j < i ==> items@[j].download_id != download_id,
        decreases items.len() - i,
    {
        if items[i].download_id == download_id {
            assert(ids_of(items@)[i as int] == download_id);
            return true;
        }
        i = i + 1;
    }
    assert(!ids_of(items@).contains(download_id)) by {
        if ids_of(items@).contains(download_id) {
            let j = choose|j: int| 0 <= j < ids_of(items@).len() && ids_of(items@)[j] == download_id;
            assert(items@[j].download_id == download_id);
        }
    }
    false
}

/// Whether `download_id` occurs among the first `n` ids.
fn lists_download(ids: &[DownloadId], n: usize, download_id: DownloadId) -> (r: bool)
    requires
        n <= ids@.len(),
    ensures
        r == (exists|j: int| 0 <= j < n && ids@[j] == download_id),
{
    let mut i: usize = 0;
    while i < n
        invariant
            i <= n,
            n <= ids@.len(),
            forall|j: int| 0 <= j < i ==> ids@[j] != download_id,
        decreases n - i,
    {
        if ids[i] == download_id {
            return true;
        }
        i = i + 1;
    }
    false
}

/// Checks that a reorder request lists every queued download exactly once.
pub fn validate_reorder(existing: &[QueueItem], download_ids: &[DownloadId]) -> (r:
    QueueManagerResult<()>)
    ensures
        r == (if is_reorder_of(existing@, download_ids@) {
            Ok::<(), QueueManagerError>(())
        } else {
            Err::<(), QueueManagerError>(QueueManagerError::InvalidReorder)
        }),
{
    let ghost ids = download_ids@;
    let ghost queued = ids_of(existing@);
    if existing.len() != download_ids.len() {
        return Err(QueueManagerError::InvalidReorder);
    }
    let mut i: usize = 0;
    while i < download_ids.len()
        invariant
            i <= ids.len(),
            ids == download_ids@,
            queued == ids_of(existing@),
            forall|a: int, b: int| 0 <= a < b < i ==> ids[a] != ids[b],
            forall|a: int| 0 <= a < i ==> queued.contains(#[trigger] ids[a]),
        decreases download_ids.len() - i,
    {
        let id = download_ids[i];
        if lists_download(download_ids, i, id) {
            proof {
                let j = choose|j: int| 0 <= j < i && ids[j] == id;
                assert(!ids.no_duplicates()) by {
                    assert(ids[j] == ids[i as int]);
                }
            }
            return Err(QueueManagerError::InvalidReorder);
        }
        if !holds_download(existing, id) {
            proof {
                assert(ids.contains(id)) by {
                    assert(ids[i as int] == id);
                }
            }
            return Err(QueueManagerError::InvalidReorder);
        }
        i = i + 1;
    }
    let mut k: usize = 0;
    while k < existing.len()
        invariant
            k <= existing@.len(),
            ids == download_ids@,
            queued == ids_of(existing@),
            forall|a: int| 0 <= a < k ==> ids.contains(#[trigger] queued[a]),
        decreases existing.len() - k,
    {
        let id = existing[k].download_id;
        if !lists_download(download_ids, download_ids.len(), id) {
            proof {
                assert(queued[k as int] == id);
                assert(!ids.contains(id));
            }
            return Err(QueueManagerError::InvalidReorder);
        }
        proof {
            let j = choose|j: int| 0 <= j < ids.len() && ids[j] == id;
            assert(queued[k as int] == id);
            assert(ids.contains(queued[k as int]));
        }
        k = k + 1;
    }
    proof {
        assert forall|d: DownloadId| ids.contains(d) <==> queued.contains(d) by {
            if ids.contains(d) {
                let a = choose|a: int| 0 <= a < ids.len() && ids[a] == d;
                assert(queued.contains(ids[a]));
            }
            if queued.contains(d) {
                let a = choose|a: int| 0 <= a < queued.len() && queued[a] == d;
                assert(ids.contains(queued[a]));
            }
        }
    }
    Ok(())
}

/// Items of `queue_id` for `ids`, numbered by their order.
pub open spec fn numbered_items(queue_id: QueueId, ids: Seq<DownloadId>) -> Seq<QueueItem> {
    Seq::new(
        ids.len(),
        |i: int| QueueItem { queue_id, download_id: ids[i], position: i as u32 },
    )
}

/// `items` with positions renumbered by their order.
pub open spec fn renumbered(items: Seq<QueueItem>) -> Seq<QueueItem> {
    Seq::new(items.len(), |i: int| QueueItem { position: i as u32, ..items[i] })
}

/// Builds the new item list of a reorder. Fails when a position does not fit in a
/// `u32`.
pub fn reorder_items(queue_id: QueueId, download_ids: &[DownloadId]) -> (r: QueueManagerResult<
    Vec<QueueItem>,
>)
    ensures
        download_ids@.len() > u32::MAX + 1 ==> r == Err::<Vec<QueueItem>, QueueManagerError>(
            QueueManagerError::InvalidReorder,
        ),
        download_ids@.len() <= u32::MAX + 1 ==> r is Ok && r->Ok_0@ == numbered_items(
            queue_id,
            download_ids@,
        ),
{
    let mut items: Vec<QueueItem> = Vec::new();
    let mut i: usize = 0;
    while i < download_ids.len()
        invariant
            i <= download_ids@.len(),
            i <= u32::MAX + 1,
            items@ == numbered_items(queue_id, download_ids@.take(i as int)),
        decreases download_ids.len() - i,
    {
        if i > 4294967295 {
            return Err(QueueManagerError::InvalidReorder);
        }
        items.push(QueueItem { queue_id, download_id: download_ids[i], position: i as u32 });
        i = i + 1;
        assert(items@ =~= numbered_items(queue_id, download_ids@.take(i as int)));
    }
    assert(download_ids@.take(i as int) =~= download_ids@);
    Ok(items)
}

/// Renumbers queue positions after an item left. Fails when a position does not fit
/// in a `u32`.
pub fn compact_items(items: &[QueueItem]) -> (r: QueueManagerResult<Vec<QueueItem>>)
    ensures
        items@.len() > u32::MAX + 1 ==> r == Err::<Vec<QueueItem>, QueueManagerError>(
            QueueManagerError::InvalidReorder,
        ),
        items@.len() <= u32::MAX + 1 ==> r is Ok && r->Ok_0@ == renumbered(items@),
{
    let mut out: Vec<QueueItem> = Vec::new();
    let mut i: usize = 0;
    while i < items.len()
        invariant
            i <= items@.len(),
            i <= u32::MAX + 1,
            out@ == renumbered(items@.take(i as int)),
        decreases items.len() - i,
    {
        if i > 4294967295 {
            return Err(QueueManagerError::InvalidReorder);
        }
        let item = items[i];
        out.push(QueueItem { position: i as u32, ..item });
        i = i + 1;
        assert(out@ =~= renumbered(items@.take(i as int)));
    }
    assert(items@.take(i as int) =~= items@);
    Ok(out)
}

/// Appends a download at the tail of a queue, unless it is already queued. Returns the
/// new list and whether it changed; fails when the new position does not fit in a `u32`.
pub fn enqueue_item(queue_id: QueueId, items: Vec<QueueItem>, download_id: DownloadId) -> (r:
    QueueManagerResult<(Vec<QueueItem>, bool)>)
    ensures
        ids_of(items@).contains(download_id) ==> r is Ok && r->Ok_0.0@ == items@ && !r->Ok_0.1,
        !ids_of(items@).contains(download_id) && items@.len() > u32::MAX ==> r == Err::<
            (Vec<QueueItem>, bool),
            QueueManagerError,
        >(QueueManagerError::InvalidReorder),
        !ids_of(items@).contains(download_id) && items@.len() <= u32::MAX ==> r is Ok
            && r->Ok_0.0@ == items@.push(
            QueueItem { queue_id, download_id, position: items@.len() as u32 },
        ) && r->Ok_0.1,
{
    if holds_download(items.as_slice(), download_id) {
        return Ok((items, false));
    }
    if items.len() > 4294967295 {
        return Err(QueueManagerError::InvalidReorder);
    }
    let position = items.len() as u32;
    let mut items = items;
    items.push(QueueItem { queue_id, download_id, position });
    Ok((items, true))
}

/// Enqueuing never duplicates a download: when the queue held each download once,
/// it still does after the new item is appended, and the new download is in it.
pub proof fn lemma_enqueue_keeps_downloads_unique(
    queue_id: QueueId,
    items: Seq<QueueItem>,
    download_id: DownloadId,
)
    requires
        ids_of(items).no_duplicates(),
        !ids_of(items).contains(download_id),
    ensures
        ({
            let grown = items.push(
                QueueItem { queue_id, download_id, position: items.len() as u32 },
            );
            &&& ids_of(grown).no_duplicates()
            &&& ids_of(grown).contains(download_id)
            &&& ids_of(grown) == ids_of(items).push(download_id)
        }),
{
    let grown = items.push(QueueItem { queue_id, download_id, position: items.len() as u32 });
    assert(ids_of(grown) =~= ids_of(items).push(download_id));
    assert(ids_of(grown)[items.len() as int] == download_id);
}

/// A valid reorder keeps exactly the queued downloads: the new items list each queued
/// download once, in the requested order, numbered from zero.
pub proof fn lemma_reorder_keeps_downloads(
    queue_id: QueueId,
    existing: Seq<QueueItem>,
    download_ids: Seq<DownloadId>,
)
    requires
        is_reorder_of(existing, download_ids),
    ensures
        ids_of(numbered_items(queue_id, download_ids)) == download_ids,
        ids_of(numbered_items(queue_id, download_ids)).no_duplicates(),
        numbered_items(queue_id, download_ids).len() == existing.len(),
        forall|d: DownloadId|
            ids_of(numbered_items(queue_id, download_ids)).contains(d) <==> ids_of(
                existing,
            ).contains(d),
        forall|i: int|
            0 <= i < download_ids.len() ==> #[trigger] numbered_items(queue_id, download_ids)[i].position
                == i as u32,
{
    assert(ids_of(numbered_items(queue_id, download_ids)) =~= download_ids);
}

/// The first item whose download is not active.
pub open spec fn first_inactive(items: Seq<QueueItem>, active: Set<i64>) -> Option<QueueItem>
    decreases items.len(),
{
    if items.len() == 0 {
        None
    } else if !active.contains(items[0].download_id@) {
        Some(items[0])
    } else {
        first_inactive(items.drop_first(), active)
    }
}

/// What scheduling does next.
#[derive(Debug, Clone, Copy, PartialEq, Eq, Structural)]
pub enum ScheduleAction {
    /// Nothing to start now.
    Idle,
    /// Every item is active and the queue stops itself when empty: stop the queue.
    StopOnEmpty,
    /// Resume this item's download and count it as active.
    Start(QueueItem),
}

/// The next scheduling step of a queue: nothing while it is stopped or at its limit,
/// otherwise the first inactive item, or stopping when none is left and the queue stops
/// itself when empty.
pub open spec fn schedule_action(
    running: bool,
    active: Set<i64>,
    max_concurrent: nat,
    stop_on_empty: bool,
    items: Seq<QueueItem>,
) -> ScheduleAction {
    if !running || active.len() >= max_concurrent {
        ScheduleAction::Idle
    } else {
        match first_inactive(items, active) {
            None => if stop_on_empty {
                ScheduleAction::StopOnEmpty
            } else {
                ScheduleAction::Idle
            },
            Some(item) => ScheduleAction::Start(item),
        }
    }
}

/// The item `first_inactive` picks is a queued item whose download is not active.
pub proof fn lemma_first_inactive(items: Seq<QueueItem>, active: Set<i64>)
    ensures
        match first_inactive(items, active) {
            Some(item) => items.contains(item) && !active.contains(item.download_id@),
            None => forall|j: int| 0 <= j < items.len() ==> active.contains(
                #[trigger] items[j].download_id@,
            ),
        },
    decreases items.len(),
{
    if items.len() > 0 && active.contains(items[0].download_id@) {
        lemma_first_inactive(items.drop_first(), active);
        match first_inactive(items, active) {
            Some(item) => {
                let j = choose|j: int|
                    0 <= j < items.drop_first().len() && items.drop_first()[j] == item;
                assert(items[j + 1] == item);
            },
            None => {
                assert(first_inactive(items, active) == first_inactive(items.drop_first(), active));
                assert forall|j: int| 0 <= j < items.len() implies active.contains(
                    #[trigger] items[j].download_id@,
                ) by {
                    if j > 0 {
                        assert(items[j] == items.drop_first()[j - 1]);
                        assert(active.contains(items.drop_first()[j - 1].download_id@));
                    }
                }
            },
        }
    } else if items.len() > 0 {
        assert(items[0] == items[0]);
        assert(items.contains(items[0]));
    }
}

/// Scheduling never starts more downloads than the queue allows: the item it starts
/// is a queued item that is not active yet, and counting it keeps the active downloads
/// within the queue's limit. It stops the queue only when every item is active.
pub proof fn lemma_schedule_respects_limit(
    running: bool,
    active: Set<i64>,
    max_concurrent: nat,
    stop_on_empty: bool,
    items: Seq<QueueItem>,
)
    requires
        active.finite(),
    ensures
        schedule_action(running, active, max_concurrent, stop_on_empty, items) matches ScheduleAction::Start(item) ==> {
            &&& running
            &&& items.contains(item)
            &&& !active.contains(item.download_id@)
            &&& active.insert(item.download_id@).len() <= max_concurrent
        },
        schedule_action(running, active, max_concurrent, stop_on_empty, items)
            == ScheduleAction::StopOnEmpty ==> {
            &&& running
            &&& stop_on_empty
            &&& forall|j: int| 0 <= j < items.len() ==> active.contains(
                #[trigger] items[j].download_id@,
            )
        },
{
    lemma_first_inactive(items, active);
}

/// Scheduling state of one queue: whether it runs, and the downloads it started that
/// have not finished.
#[derive(Debug)]
pub struct QueueRuntime {
    running: bool,
    active: BTreeSet<i64>,
}

impl QueueRuntime {
    /// The active set is finite.
    #[verifier::type_invariant]
    spec fn active_finite(self) -> bool {
        self.active@.finite()
    }

    /// Whether the queue is running.
    pub closed spec fn running(&self) -> bool {
        self.running
    }

    /// Id values of the downloads the queue started that have not finished.
    pub closed spec fn active(&self) -> Set<i64> {
        self.active@
    }

    /// A stopped queue with nothing active.
    pub fn new() -> (r: Self)
        ensures
            !r.running(),
            r.active() == Set::<i64>::empty(),
    {
        QueueRuntime { running: false, active: BTreeSet::new() }
    }

    /// Whether the queue is running.
    pub fn is_running(&self) -> (r: bool)
        ensures
            r == self.running(),
    {
        self.running
    }

    /// Number of active downloads.
    pub fn active_count(&self) -> (r: usize)
        ensures
            r == self.active().len(),
    {
        self.active.len()
    }

    /// Whether the queue counts a download as active.
    pub fn is_active(&self, download_id: DownloadId) -> (r: bool)
        ensures
            r == self.active().contains(download_id@),
    {
        self.active.contains(&download_id.get())
    }

    /// Marks the queue running.
    pub fn start(&mut self)
        ensures
            final(self).running(),
            final(self).active() == old(self).active(),
    {
        proof {
            use_type_invariant(&*self);
        }
        self.running = true;
    }

    /// Stops the queue itself, as when it ran out of items.
    pub fn halt(&mut self)
        ensures
            !final(self).running(),
            final(self).active() == old(self).active(),
    {
        proof {
            use_type_invariant(&*self);
        }
        self.running = false;
    }

    /// Stops the queue and forgets its active downloads, returning them so that each
    /// can be paused.
    pub fn stop(&mut self) -> (r: Vec<DownloadId>)
        ensures
            !final(self).running(),
            final(self).active() == Set::<i64>::empty(),
            r@.len() == old(self).active().len(),
            forall|i: int| 0 <= i < r@.len() ==> old(self).active().contains(#[trigger] r@[i]@),
            forall|k: i64| old(self).active().contains(k) ==> exists|i: int|
                0 <= i < r@.len() && #[trigger] r@[i]@ == k,
    {
        let ghost keys = vstd::std_specs::btree::spec_btree_keys_iter(&self.active).remaining();
        let mut ids: Vec<DownloadId> = Vec::new();
        for k in it: self.active.iter()
            invariant
                it.seq() == keys,
                ids@.len() == it.index(),
                forall|i: int| 0 <= i < it.index() ==> #[trigger] ids@[i]@ == *keys[i],
        {
            ids.push(DownloadId::new(*k));
        }
        proof {
            let set = keys.unref().to_set();
            assert(set == old(self).active());
            assert(keys.len() == old(self).active().len());
            assert forall|i: int| 0 <= i < ids@.len() implies old(self).active().contains(
                #[trigger] ids@[i]@,
            ) by {
                assert(keys.unref()[i] == *keys[i]);
                assert(set.contains(keys.unref()[i]));
            }
            assert forall|k: i64| old(self).active().contains(k) implies exists|i: int|
                0 <= i < ids@.len() && #[trigger] ids@[i]@ == k by {
                assert(set.contains(k));
                let i = choose|i: int| 0 <= i < keys.unref().len() && keys.unref()[i] == k;
                assert(ids@[i]@ == k);
            }
        }
        self.running = false;
        let mut active: BTreeSet<i64> = BTreeSet::new();
        std::mem::swap(&mut active, &mut self.active);
        ids
    }

    /// Forgets a finished download.
    pub fn finish(&mut self, download_id: DownloadId)
        ensures
            final(self).running() == old(self).running(),
            final(self).active() == old(self).active().remove(download_id@),
    {
        proof {
            use_type_invariant(&*self);
        }
        let mut active: BTreeSet<i64> = BTreeSet::new();
        std::mem::swap(&mut active, &mut self.active);
        let _ = active.remove(&download_id.get());
        self.active = active;
    }

    /// Counts a download that scheduling just started as active.
    pub fn started(&mut self, download_id: DownloadId)
        ensures
            final(self).running() == old(self).running(),
            final(self).active() == old(self).active().insert(download_id@),
    {
        proof {
            use_type_invariant(&*self);
        }
        let mut active: BTreeSet<i64> = BTreeSet::new();
        std::mem::swap(&mut active, &mut self.active);
        let _ = active.insert(download_id.get());
        self.active = active;
    }

    /// The next scheduling step for `queue`, given its items in order.
    pub fn next_action(&self, queue: &Queue, items: &[QueueItem]) -> (r: ScheduleAction)
        ensures
            self.active().finite(),
            r == schedule_action(
                self.running(),
                self.active(),
                queue.max_concurrent@ as nat,
                queue.stop_on_empty,
                items@,
            ),
    {
        proof {
            use_type_invariant(self);
        }
        let max_active = queue.max_concurrent.get();
        if !self.running || self.active.len() >= max_active as usize {
            return ScheduleAction::Idle;
        }
        let ghost active = self.active();
        assert(items@.skip(0) =~= items@);
        let mut i: usize = 0;
        while i < items.len()
            invariant
                i <= items@.len(),
                active == self.active(),
                active.finite(),
                self.running(),
                active.len() < queue.max_concurrent@,
                first_inactive(items@, active) == first_inactive(items@.skip(i as int), active),
            decreases items.len() - i,
        {
            let item = items[i];
            if !self.active.contains(&item.download_id.get()) {
                assert(items@.skip(i as int)[0] == item);
                return ScheduleAction::Start(item);
            }
            assert(items@.skip(i as int).drop_first() =~= items@.skip(i + 1));
            i = i + 1;
        }
        assert(items@.skip(i as int).len() == 0);
        if queue.stop_on_empty {
            ScheduleAction::StopOnEmpty
        } else {
            ScheduleAction::Idle
        }
    }
}

} // verus!
