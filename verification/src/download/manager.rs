use std::collections::BTreeMap;

use vstd::prelude::*;

use crate::db::DbError;
use crate::download::job::{downloaded_from_parts, parts_downloaded};
use crate::download::model::{
    Bytes, BytesPerSecond, DownloadFailure, DownloadId, DownloadItem, DownloadKind, DownloadPart,
    DownloadProgress, DownloadStatus, NonZeroU16, PartStatus,
};
use crate::text::{decimal, push_decimal, push_str, signed_decimal, string_from_range, chars_of};

verus! {

/// Default bounded command queue size.
pub const DEFAULT_COMMAND_BUFFER: usize = 64;

/// Default event broadcast channel size.
pub const DEFAULT_EVENT_BUFFER: usize = 256;

/// Errors produced by the download manager actor or handle. File system errors are
/// carried as their messages.
#[derive(Debug, Clone, PartialEq, Eq)]
pub enum DownloadManagerError {
    /// Database operation failed.
    Db(DbError),
    /// Filesystem operation failed.
    Io(String),
    /// Command channel is closed because the manager has stopped.
    Stopped,
    /// Command response channel closed before a reply was sent.
    ResponseDropped,
    /// Requested download does not exist.
    NotFound(DownloadId),
    /// System clock is earlier than Unix epoch.
    ClockBeforeEpoch,
    /// System clock value does not fit in database timestamp range.
    ClockOutOfRange,
}

/// Result type returned by download manager APIs.
pub type DownloadManagerResult<T> = Result<T, DownloadManagerError>;

impl DownloadManagerError {
    /// The error message, as `Display` shows it.
    pub open spec fn message(&self) -> Seq<char> {
        match self {
            DownloadManagerError::Db(e) => e.message(),
            DownloadManagerError::Io(m) => m@,
            DownloadManagerError::Stopped => "download manager is stopped"@,
            DownloadManagerError::ResponseDropped => "download manager response was dropped"@,
            DownloadManagerError::NotFound(id) => "download `"@ + signed_decimal(id@ as int)
                + "` not found"@,
            DownloadManagerError::ClockBeforeEpoch => "system clock is earlier than Unix epoch"@,
            DownloadManagerError::ClockOutOfRange => "system clock timestamp is out of range"@,
        }
    }

    /// The error message, as `Display` shows it.
    pub fn to_string(&self) -> (r: String)
        ensures
            r@ == self.message(),
    {
        let mut r = String::new();
        match self {
            DownloadManagerError::Db(e) => {
                let m = e.to_string();
                push_str(&mut r, m.as_str());
            },
            DownloadManagerError::Io(m) => push_str(&mut r, m.as_str()),
            DownloadManagerError::Stopped => push_str(&mut r, "download manager is stopped"),
            DownloadManagerError::ResponseDropped => push_str(
                &mut r,
                "download manager response was dropped",
            ),
            DownloadManagerError::NotFound(id) => {
                push_str(&mut r, "download `");
                let digits = id.to_string();
                push_str(&mut r, digits.as_str());
                push_str(&mut r, "` not found");
            },
            DownloadManagerError::ClockBeforeEpoch => push_str(
                &mut r,
                "system clock is earlier than Unix epoch",
            ),
            DownloadManagerError::ClockOutOfRange => push_str(
                &mut r,
                "system clock timestamp is out of range",
            ),
        }
        r
    }
}

/// New download request accepted by the manager.
#[derive(Debug, Clone, PartialEq, Eq)]
pub struct NewDownload {
    /// Primary source URL.
    pub url: String,
    /// Optional page URL where the download was discovered.
    pub download_page: Option<String>,
    /// Request headers captured for authenticated or browser-originated downloads.
    pub headers: BTreeMap<String, String>,
    /// Final file name without parent folder.
    pub file_name: String,
    /// Destination folder, as UTF-8 path text.
    pub folder: String,
    /// Preferred worker count for future ranged downloads.
    pub preferred_connections: Option<NonZeroU16>,
    /// Optional per-download throughput limit.
    pub speed_limit: Option<BytesPerSecond>,
}

impl NewDownload {
    /// Creates a minimal HTTP download request.
    #[must_use]
    pub fn http(url: String, file_name: String, folder: String) -> (r: Self)
        ensures
            r.url == url,
            r.download_page is None,
            r.headers@ == Map::<String, String>::empty(),
            r.file_name == file_name,
            r.folder == folder,
            r.preferred_connections is None,
            r.speed_limit is None,
    {
        NewDownload {
            url,
            download_page: None,
            headers: BTreeMap::new(),
            file_name,
            folder,
            preferred_connections: None,
            speed_limit: None,
        }
    }
}

/// Events published by the download manager.
#[allow(inconsistent_fields)]
#[derive(Debug, Clone, PartialEq, Eq)]
pub enum DownloadEvent {
    /// Manager boot loaded unfinished downloads from persistence.
    BootLoaded { downloads: Vec<DownloadItem> },
    /// Download metadata was added.
    DownloadAdded { item: DownloadItem },
    /// Download metadata changed.
    DownloadChanged { item: DownloadItem },
    /// Download moved to paused state.
    DownloadPaused { item: DownloadItem },
    /// Download moved to queued state and its job was started.
    DownloadResumed { item: DownloadItem },
    /// Download was removed.
    DownloadRemoved { id: DownloadId },
    /// Download job failed.
    DownloadFailed { id: DownloadId, failure: DownloadFailure },
    /// Progress snapshot of a running job.
    DownloadProgress { id: DownloadId, progress: DownloadProgress },
    /// Manager actor stopped.
    Shutdown,
}

/// Runtime options for the manager actor.
#[derive(Debug, Clone, Copy, PartialEq, Eq, Structural)]
pub struct DownloadManagerOptions {
    /// Bounded command channel capacity.
    pub command_buffer: usize,
    /// Broadcast event channel capacity.
    pub event_buffer: usize,
}

impl Default for DownloadManagerOptions {
    fn default() -> (r: Self)
        ensures
            r.command_buffer == DEFAULT_COMMAND_BUFFER,
            r.event_buffer == DEFAULT_EVENT_BUFFER,
    {
        DownloadManagerOptions {
            command_buffer: DEFAULT_COMMAND_BUFFER,
            event_buffer: DEFAULT_EVENT_BUFFER,
        }
    }
}

/// Statuses whose downloads get a job again when the manager boots.
pub open spec fn starts_on_boot(status: DownloadStatus) -> bool {
    ||| status == DownloadStatus::Queued
    ||| status == DownloadStatus::Downloading
    ||| status == DownloadStatus::Retrying
    ||| status == DownloadStatus::PreparingFile
}

/// Whether an unfinished download found at boot gets its job started again.
pub fn should_start_on_boot(status: DownloadStatus) -> (r: bool)
    ensures
        r == starts_on_boot(status),
{
    match status {
        DownloadStatus::Queued | DownloadStatus::Downloading | DownloadStatus::Retrying
        | DownloadStatus::PreparingFile => true,
        _ => false,
    }
}

/// The item a new request becomes, once it has an id, a free file name and a time.
pub open spec fn item_for_request(
    id: DownloadId,
    request: NewDownload,
    file_name: String,
    now_ms: i64,
) -> DownloadItem {
    DownloadItem {
        id,
        kind: DownloadKind::Http,
        url: request.url,
        download_page: request.download_page,
        headers: request.headers,
        file_name,
        folder: request.folder,
        status: DownloadStatus::Added,
        total_bytes: None,
        downloaded_bytes: Bytes(0),
        etag: None,
        last_modified: None,
        preferred_connections: request.preferred_connections,
        speed_limit: request.speed_limit,
        failure: None,
        created_at: now_ms,
        started_at: None,
        completed_at: None,
        updated_at: now_ms,
    }
}

/// Builds the persisted item for a new request: added, nothing downloaded, created now.
pub fn new_item(id: DownloadId, request: NewDownload, file_name: String, now_ms: i64) -> (r:
    DownloadItem)
    ensures
        r == item_for_request(id, request, file_name, now_ms),
{
    DownloadItem {
        id,
        kind: DownloadKind::Http,
        url: request.url,
        download_page: request.download_page,
        headers: request.headers,
        file_name,
        folder: request.folder,
        status: DownloadStatus::Added,
        total_bytes: None,
        downloaded_bytes: Bytes::new(0),
        etag: None,
        last_modified: None,
        preferred_connections: request.preferred_connections,
        speed_limit: request.speed_limit,
        failure: None,
        created_at: now_ms,
        started_at: None,
        completed_at: None,
        updated_at: now_ms,
    }
}

/// Marks an item paused. When its job is running, `live_downloaded` is what the job has
/// written so far, and the item keeps the larger of that and its persisted count.
pub fn pause_item(item: &mut DownloadItem, now_ms: i64, live_downloaded: Option<Bytes>)
    ensures
        *final(item) == (DownloadItem {
            status: DownloadStatus::Paused,
            updated_at: now_ms,
            downloaded_bytes: match live_downloaded {
                Some(live) => if live@ > old(item).downloaded_bytes@ {
                    live
                } else {
                    old(item).downloaded_bytes
                },
                None => old(item).downloaded_bytes,
            },
            ..*old(item)
        }),
{
    item.status = DownloadStatus::Paused;
    item.updated_at = now_ms;
    if let Some(live) = live_downloaded {
        if live.get() > item.downloaded_bytes.get() {
            item.downloaded_bytes = live;
        }
    }
}

/// Marks an item queued again, clearing its failure.
pub fn resume_item(item: &mut DownloadItem, now_ms: i64)
    ensures
        *final(item) == (DownloadItem {
            status: DownloadStatus::Queued,
            updated_at: now_ms,
            failure: None,
            ..*old(item)
        }),
{
    item.status = DownloadStatus::Queued;
    item.updated_at = now_ms;
    item.failure = None;
}

/// A part that a worker is connecting or receiving.
pub open spec fn is_transferring(part: DownloadPart) -> bool {
    part.status == PartStatus::Connecting || part.status == PartStatus::Receiving
}

/// Active worker count shown for a download: its transferring parts, capped at
/// `u16::MAX`, and at least one while a download without parts is downloading.
pub open spec fn active_parts_of(parts: Seq<DownloadPart>, status: DownloadStatus) -> u16 {
    let count = parts.filter(|p: DownloadPart| is_transferring(p)).len();
    let capped: u16 = if count > u16::MAX {
        u16::MAX
    } else {
        count as u16
    };
    if capped == 0 && parts.len() == 0 && status == DownloadStatus::Downloading {
        1
    } else {
        capped
    }
}

/// Active worker count shown for a download, from its persisted parts.
pub fn active_part_count(parts: &[DownloadPart], status: DownloadStatus) -> (r: u16)
    ensures
        r == active_parts_of(parts@, status),
{
    let mut count: usize = 0;
    let mut i: usize = 0;
    while i < parts.len()
        invariant
            i <= parts@.len(),
            count == parts@.take(i as int).filter(|p: DownloadPart| is_transferring(p)).len(),
            count <= i,
        decreases parts.len() - i,
    {
        let p = parts[i];
        assert(parts@.take(i + 1).drop_last() == parts@.take(i as int));
        reveal_with_fuel(Seq::filter, 1);
        if p.status == PartStatus::Connecting || p.status == PartStatus::Receiving {
            count = count + 1;
        }
        i = i + 1;
    }
    assert(parts@.take(parts@.len() as int) == parts@);
    let capped: u16 = if count > 65535 {
        65535
    } else {
        count as u16
    };
    if capped == 0 && parts.len() == 0 && status == DownloadStatus::Downloading {
        1
    } else {
        capped
    }
}

/// The progress snapshot published for a running job. `live_downloaded` and
/// `live_active` are what the job reports itself; `parts` are the persisted parts
/// of the item, consulted only while no worker is reported active.
pub open spec fn progress_snapshot_of(
    live_downloaded: Bytes,
    live_active: u16,
    item: DownloadItem,
    parts: Seq<DownloadPart>,
) -> DownloadProgress {
    if live_active > 0 {
        DownloadProgress {
            downloaded_bytes: live_downloaded,
            total_bytes: item.total_bytes,
            speed: BytesPerSecond(0),
            eta_seconds: None,
            active_part_count: live_active,
        }
    } else {
        let persisted: nat = if parts.len() == 0 {
            item.downloaded_bytes@ as nat
        } else {
            parts_downloaded(parts)
        };
        DownloadProgress {
            downloaded_bytes: if live_downloaded@ >= persisted {
                live_downloaded
            } else {
                Bytes(persisted as u64)
            },
            total_bytes: item.total_bytes,
            speed: BytesPerSecond(0),
            eta_seconds: None,
            active_part_count: active_parts_of(parts, item.status),
        }
    }
}

/// The progress snapshot published for a running job; see `progress_snapshot_of`.
pub fn progress_snapshot(
    live_downloaded: Bytes,
    live_active: u16,
    item: &DownloadItem,
    parts: &[DownloadPart],
) -> (r: DownloadProgress)
    requires
        live_active > 0 || parts_downloaded(parts@) <= u64::MAX,
    ensures
        r == progress_snapshot_of(live_downloaded, live_active, *item, parts@),
{
    if live_active > 0 {
        return DownloadProgress {
            downloaded_bytes: live_downloaded,
            total_bytes: item.total_bytes,
            speed: BytesPerSecond::new(0),
            eta_seconds: None,
            active_part_count: live_active,
        };
    }
    let persisted = if parts.len() == 0 {
        item.downloaded_bytes.get()
    } else {
        downloaded_from_parts(parts)
    };
    let downloaded_bytes = if live_downloaded.get() >= persisted {
        live_downloaded
    } else {
        Bytes::new(persisted)
    };
    DownloadProgress {
        downloaded_bytes,
        total_bytes: item.total_bytes,
        speed: BytesPerSecond::new(0),
        eta_seconds: None,
        active_part_count: active_part_count(parts, item.status),
    }
}

/// Whether a progress snapshot is worth publishing: workers are active, or it differs
/// from the last one published.
pub fn should_publish_progress(progress: DownloadProgress, last: Option<DownloadProgress>) -> (r:
    bool)
    ensures
        r == (progress.active_part_count > 0 || last != Some(progress)),
{
    if progress.active_part_count > 0 {
        return true;
    }
    match last {
        Some(previous) => previous != progress,
        None => true,
    }
}

/// The event a finished job publishes for its item: paused items as `DownloadPaused`,
/// all others as `DownloadChanged`.
pub fn terminal_event(item: DownloadItem) -> (r: DownloadEvent)
    ensures
        r == (if item.status == DownloadStatus::Paused {
            DownloadEvent::DownloadPaused { item }
        } else {
            DownloadEvent::DownloadChanged { item }
        }),
{
    match item.status {
        DownloadStatus::Paused => DownloadEvent::DownloadPaused { item },
        _ => DownloadEvent::DownloadChanged { item },
    }
}

/// Index of the dot that starts a file name's extension: the last dot, unless it is
/// the first character.
pub open spec fn extension_dot(name: Seq<char>) -> Option<int> {
    if exists|i: int| 0 < i < name.len() && name[i] == '.' {
        Some(
            choose|i: int|
                0 < i < name.len() && name[i] == '.' && forall|j: int|
                    i < j < name.len() ==> name[j] != '.',
        )
    } else {
        None
    }
}

/// `name` with ` (n)` inserted before its extension: `file.bin` becomes `file (1).bin`.
pub open spec fn numbered_name(name: Seq<char>, n: nat) -> Seq<char> {
    let mark = " ("@ + decimal(n) + ")"@;
    match extension_dot(name) {
        Some(i) => name.subrange(0, i) + mark + name.subrange(i, name.len() as int),
        None => name + mark,
    }
}

/// The candidate name tried when `file_name` is taken in its folder: ` (n)` goes before
/// the extension.
pub fn numbered_file_name(file_name: &str, n: u64) -> (r: String)
    ensures
        r@ == numbered_name(file_name@, n as nat),
{
    let chars = chars_of(file_name);
    let len = chars.len();
    let mut dot: Option<usize> = None;
    let mut j: usize = 1;
    while j < len
        invariant
            chars@ == file_name@,
            len == chars@.len(),
            1 <= j,
            j <= len || (len == 0 && j == 1),
            match dot {
                Some(d) => 0 < d < j && chars@[d as int] == '.' && forall|k: int|
                    d < k < j ==> chars@[k] != '.',
                None => forall|k: int| 0 < k < j ==> chars@[k] != '.',
            },
        decreases len - j,
    {
        if chars[j] == '.' {
            dot = Some(j);
        }
        j = j + 1;
    }
    proof {
        let name = file_name@;
        match dot {
            Some(d) => {
                let c = choose|i: int|
                    0 < i < name.len() && name[i] == '.' && forall|k: int|
                        i < k < name.len() ==> name[k] != '.';
                assert(0 < d < name.len() && name[d as int] == '.');
                if c < d {
                    assert(name[d as int] != '.');
                } else if c > d {
                    assert(name[c] != '.');
                }
                assert(extension_dot(name) == Some(d as int));
            },
            None => {
                assert(extension_dot(name) is None);
            },
        }
    }
    let mut r = String::new();
    match dot {
        Some(d) => {
            let stem = string_from_range(&chars, 0, d);
            let ext = string_from_range(&chars, d, len);
            push_str(&mut r, stem.as_str());
            push_str(&mut r, " (");
            push_decimal(&mut r, n);
            push_str(&mut r, ")");
            push_str(&mut r, ext.as_str());
        },
        None => {
            push_str(&mut r, file_name);
            push_str(&mut r, " (");
            push_decimal(&mut r, n);
            push_str(&mut r, ")");
        },
    }
    r
}

} // verus!
