use vstd::prelude::*;

use std::collections::VecDeque;

use crate::db::DbError;
use crate::download::http::{content_range_of, parse_content_range, ByteRange, HttpMetadata, HttpProbeError, ResumeValidation};
use crate::download::model::{
    default_incomplete_extension, Bytes, DownloadConfig, DownloadId, DownloadFailure, DownloadItem,
    DownloadPart, DownloadStatus, FailureKind, NonZeroU16, PartId, PartStatus, ResumeSupport,
};
use crate::download::part::{split_fixed_ranges, split_result_holds, RangeSplitError};
use crate::text::{decimal, push_decimal, push_str, trim};

verus! {

/// Errors returned by HTTP download jobs. Errors of the HTTP client, the file system
/// and the task runtime are carried as their messages.
#[derive(Debug, Clone, PartialEq, Eq)]
pub enum HttpDownloadJobError {
    /// Database operation failed.
    Db(DbError),
    /// HTTP probe failed.
    Probe(HttpProbeError),
    /// HTTP request or body streaming failed.
    Request(String),
    /// Filesystem operation failed.
    Io(String),
    /// HTTP header name is invalid.
    InvalidHeaderName(String),
    /// HTTP header value is invalid.
    InvalidHeaderValue(String),
    /// Remote server returned an unusable status.
    UnexpectedStatus(u16),
    /// Remote server ignored required resume range.
    RangeIgnored,
    /// Remote server cannot resume partial file.
    ResumeUnsupported,
    /// System clock is earlier than Unix epoch.
    ClockBeforeEpoch,
    /// System clock value does not fit in database timestamp range.
    ClockOutOfRange,
    /// Arithmetic overflow while tracking progress.
    ByteCountOverflow,
    /// Range split failed.
    RangeSplit(RangeSplitError),
    /// Worker task failed to join.
    WorkerJoin(String),
    /// Ranged worker received invalid content range.
    InvalidPartContentRange { index: u32, actual: String },
}

/// Result type returned by HTTP download jobs.
pub type HttpDownloadJobResult<T> = Result<T, HttpDownloadJobError>;

/// Persisted failure category of a job error.
pub open spec fn failure_kind_of(error: HttpDownloadJobError) -> FailureKind {
    match error {
        HttpDownloadJobError::Db(_) => FailureKind::Disk,
        HttpDownloadJobError::Probe(_) => FailureKind::Validation,
        HttpDownloadJobError::ResumeUnsupported => FailureKind::Validation,
        HttpDownloadJobError::RangeIgnored => FailureKind::Validation,
        HttpDownloadJobError::Request(_) => FailureKind::Network,
        HttpDownloadJobError::UnexpectedStatus(_) => FailureKind::Network,
        HttpDownloadJobError::Io(_) => FailureKind::Disk,
        HttpDownloadJobError::InvalidHeaderName(_) => FailureKind::Validation,
        HttpDownloadJobError::InvalidHeaderValue(_) => FailureKind::Validation,
        HttpDownloadJobError::ClockBeforeEpoch => FailureKind::Disk,
        HttpDownloadJobError::ClockOutOfRange => FailureKind::Disk,
        HttpDownloadJobError::ByteCountOverflow => FailureKind::Disk,
        HttpDownloadJobError::RangeSplit(_) => FailureKind::Disk,
        HttpDownloadJobError::WorkerJoin(_) => FailureKind::Disk,
        HttpDownloadJobError::InvalidPartContentRange { .. } => FailureKind::Validation,
    }
}

fn failure_kind(error: &HttpDownloadJobError) -> (r: FailureKind)
    ensures
        r == failure_kind_of(*error),
{
    match error {
        HttpDownloadJobError::Db(_) => FailureKind::Disk,
        HttpDownloadJobError::Probe(_)
        | HttpDownloadJobError::ResumeUnsupported
        | HttpDownloadJobError::RangeIgnored => FailureKind::Validation,
        HttpDownloadJobError::Request(_) | HttpDownloadJobError::UnexpectedStatus(_) => {
            FailureKind::Network
        },
        HttpDownloadJobError::Io(_) => FailureKind::Disk,
        HttpDownloadJobError::InvalidHeaderName(_)
        | HttpDownloadJobError::InvalidHeaderValue(_) => FailureKind::Validation,
        HttpDownloadJobError::ClockBeforeEpoch
        | HttpDownloadJobError::ClockOutOfRange
        | HttpDownloadJobError::ByteCountOverflow
        | HttpDownloadJobError::RangeSplit(_)
        | HttpDownloadJobError::WorkerJoin(_) => FailureKind::Disk,
        HttpDownloadJobError::InvalidPartContentRange { .. } => FailureKind::Validation,
    }
}

impl HttpDownloadJobError {
    /// The error message, as `Display` shows it.
    pub open spec fn message(&self) -> Seq<char> {
        match self {
            HttpDownloadJobError::Db(e) => e.message(),
            HttpDownloadJobError::Probe(e) => e.message(),
            HttpDownloadJobError::Request(m) => m@,
            HttpDownloadJobError::Io(m) => m@,
            HttpDownloadJobError::InvalidHeaderName(n) => "invalid HTTP header name `"@ + n@ + "`"@,
            HttpDownloadJobError::InvalidHeaderValue(n) => "invalid HTTP header value for `"@ + n@
                + "`"@,
            HttpDownloadJobError::UnexpectedStatus(c) => "unexpected HTTP status `"@ + decimal(
                *c as nat,
            ) + "`"@,
            HttpDownloadJobError::RangeIgnored => "remote server ignored byte range resume request"@,
            HttpDownloadJobError::ResumeUnsupported => "remote server does not support byte range resume"@,
            HttpDownloadJobError::ClockBeforeEpoch => "system clock is earlier than Unix epoch"@,
            HttpDownloadJobError::ClockOutOfRange => "system clock timestamp is out of range"@,
            HttpDownloadJobError::ByteCountOverflow => "download byte counter overflowed"@,
            HttpDownloadJobError::RangeSplit(e) => e.message(),
            HttpDownloadJobError::WorkerJoin(m) => "part worker task failed: "@ + m@,
            HttpDownloadJobError::InvalidPartContentRange { index, actual } => "part `"@ + decimal(
                *index as nat,
            ) + "` received invalid content range `"@ + actual@ + "`"@,
        }
    }

    /// The error message, as `Display` shows it.
    pub fn to_string(&self) -> (r: String)
        ensures
            r@ == self.message(),
    {
        let mut r = String::new();
        match self {
            HttpDownloadJobError::Db(e) => {
                let m = e.to_string();
                push_str(&mut r, m.as_str());
            },
            HttpDownloadJobError::Probe(e) => {
                let m = e.to_string();
                push_str(&mut r, m.as_str());
            },
            HttpDownloadJobError::Request(m) => push_str(&mut r, m.as_str()),
            HttpDownloadJobError::Io(m) => push_str(&mut r, m.as_str()),
            HttpDownloadJobError::InvalidHeaderName(n) => {
                push_str(&mut r, "invalid HTTP header name `");
                push_str(&mut r, n.as_str());
                push_str(&mut r, "`");
            },
            HttpDownloadJobError::InvalidHeaderValue(n) => {
                push_str(&mut r, "invalid HTTP header value for `");
                push_str(&mut r, n.as_str());
                push_str(&mut r, "`");
            },
            HttpDownloadJobError::UnexpectedStatus(c) => {
                push_str(&mut r, "unexpected HTTP status `");
                push_decimal(&mut r, *c as u64);
                push_str(&mut r, "`");
            },
            HttpDownloadJobError::RangeIgnored => push_str(
                &mut r,
                "remote server ignored byte range resume request",
            ),
            HttpDownloadJobError::ResumeUnsupported => push_str(
                &mut r,
                "remote server does not support byte range resume",
            ),
            HttpDownloadJobError::ClockBeforeEpoch => push_str(
                &mut r,
                "system clock is earlier than Unix epoch",
            ),
            HttpDownloadJobError::ClockOutOfRange => push_str(
                &mut r,
                "system clock timestamp is out of range",
            ),
            HttpDownloadJobError::ByteCountOverflow => push_str(
                &mut r,
                "download byte counter overflowed",
            ),
            HttpDownloadJobError::RangeSplit(e) => {
                let m = e.to_string();
                push_str(&mut r, m.as_str());
            },
            HttpDownloadJobError::WorkerJoin(m) => {
                push_str(&mut r, "part worker task failed: ");
                push_str(&mut r, m.as_str());
            },
            HttpDownloadJobError::InvalidPartContentRange { index, actual } => {
                push_str(&mut r, "part `");
                push_decimal(&mut r, *index as u64);
                push_str(&mut r, "` received invalid content range `");
                push_str(&mut r, actual.as_str());
                push_str(&mut r, "`");
            },
        }
        r
    }

    /// Converts the job error into persisted failure details.
    #[must_use]
    pub fn to_failure(&self) -> (r: DownloadFailure)
        ensures
            r.kind == failure_kind_of(*self),
            r.message@ == self.message(),
    {
        DownloadFailure { kind: failure_kind(self), message: self.to_string() }
    }
}

/// Settings a job runs with.
#[derive(Debug, Clone, PartialEq, Eq)]
pub struct HttpDownloadJobConfig {
    /// Extension appended to the incomplete file.
    pub incomplete_extension: String,
    /// Minimum time between persisted progress snapshots, in milliseconds.
    pub progress_interval_ms: u64,
    /// Retries allowed for a failing part.
    pub max_retries: u32,
}

impl Default for HttpDownloadJobConfig {
    fn default() -> (r: Self)
        ensures
            r.incomplete_extension@ == default_incomplete_extension(),
            r.progress_interval_ms == 500,
            r.max_retries == 3,
    {
        let defaults = DownloadConfig::default();
        HttpDownloadJobConfig {
            incomplete_extension: defaults.incomplete_extension,
            progress_interval_ms: 500,
            max_retries: defaults.max_retries.get(),
        }
    }
}

/// A part is complete when its end is known, its cursor is one past the end, and it is
/// marked completed.
pub open spec fn part_complete(part: DownloadPart) -> bool {
    match part.end_byte {
        None => false,
        Some(end) => part.current_byte@ == (if end@ == u64::MAX {
            u64::MAX as int
        } else {
            end@ + 1
        }) && part.status == PartStatus::Completed,
    }
}

/// Whether a part has been fully downloaded.
pub fn part_is_complete(part: &DownloadPart) -> (r: bool)
    ensures
        r == part_complete(*part),
{
    let end = match part.end_byte {
        Some(e) => e.get(),
        None => return false,
    };
    let after = if end == u64::MAX {
        u64::MAX
    } else {
        end + 1
    };
    part.current_byte.get() == after && part.status == PartStatus::Completed
}

/// Bytes a part has written: its cursor minus its start, or zero.
pub open spec fn part_progress(part: DownloadPart) -> nat {
    if part.current_byte@ >= part.start_byte@ {
        (part.current_byte@ - part.start_byte@) as nat
    } else {
        0
    }
}

/// Bytes written by all parts.
pub open spec fn parts_downloaded(parts: Seq<DownloadPart>) -> nat
    decreases parts.len(),
{
    if parts.len() == 0 {
        0
    } else {
        parts_downloaded(parts.drop_last()) + part_progress(parts.last())
    }
}

/// Bytes written by all parts, or `None` when the sum does not fit in a `u64`.
pub fn checked_downloaded_from_parts(parts: &[DownloadPart]) -> (r: Option<u64>)
    ensures
        match r {
            Some(n) => n == parts_downloaded(parts@),
            None => parts_downloaded(parts@) > u64::MAX,
        },
{
    let mut total: u64 = 0;
    let mut i: usize = 0;
    while i < parts.len()
        invariant
            i <= parts@.len(),
            total == parts_downloaded(parts@.take(i as int)),
        decreases parts.len() - i,
    {
        let part = parts[i];
        let progress = part.current_byte.get().saturating_sub(part.start_byte.get());
        assert(parts@.take(i + 1).drop_last() == parts@.take(i as int));
        if progress > u64::MAX - total {
            proof {
                lemma_parts_downloaded_prefix(parts@, i + 1);
            }
            return None;
        }
        total = total + progress;
        i = i + 1;
    }
    assert(parts@.take(parts@.len() as int) == parts@);
    Some(total)
}

proof fn lemma_parts_downloaded_prefix(parts: Seq<DownloadPart>, k: int)
    requires
        0 <= k <= parts.len(),
    ensures
        parts_downloaded(parts.take(k)) <= parts_downloaded(parts),
    decreases parts.len(),
{
    if k < parts.len() {
        assert(parts.drop_last().take(k) == parts.take(k));
        lemma_parts_downloaded_prefix(parts.drop_last(), k);
    } else {
        assert(parts.take(k) == parts);
    }
}

/// Bytes written by all parts; the sum must fit in a `u64`.
pub fn downloaded_from_parts(parts: &[DownloadPart]) -> (r: u64)
    requires
        parts_downloaded(parts@) <= u64::MAX,
    ensures
        r == parts_downloaded(parts@),
{
    match checked_downloaded_from_parts(parts) {
        Some(n) => n,
        None => 0,
    }
}

/// What a download response's status means for a request that started at `range_start`:
/// a resumed request needs 206, and 200 means the range was ignored; a fresh request
/// needs a 2xx status.
pub open spec fn download_status_check(status: u16, range_start: Option<u64>) -> Result<
    (),
    HttpDownloadJobError,
> {
    match range_start {
        Some(_) => if status == 206 {
            Ok(())
        } else if status == 200 {
            Err(HttpDownloadJobError::RangeIgnored)
        } else {
            Err(HttpDownloadJobError::UnexpectedStatus(status))
        },
        None => if 200 <= status <= 299 {
            Ok(())
        } else {
            Err(HttpDownloadJobError::UnexpectedStatus(status))
        },
    }
}

/// Checks the status of a download response.
pub fn validate_download_status(status: u16, range_start: Option<u64>) -> (r: HttpDownloadJobResult<()>)
    ensures
        r == download_status_check(status, range_start),
{
    match range_start {
        Some(_) => if status == 206 {
            Ok(())
        } else if status == 200 {
            Err(HttpDownloadJobError::RangeIgnored)
        } else {
            Err(HttpDownloadJobError::UnexpectedStatus(status))
        },
        None => if 200 <= status && status <= 299 {
            Ok(())
        } else {
            Err(HttpDownloadJobError::UnexpectedStatus(status))
        },
    }
}

/// Worker count a download asks for: its own preference, or the default of eight.
pub open spec fn preferred_connections_of(item: DownloadItem) -> u16 {
    match item.preferred_connections {
        Some(n) => n@,
        None => 8,
    }
}

/// Worker count a download asks for.
pub fn preferred_connections(item: &DownloadItem) -> (r: NonZeroU16)
    ensures
        r@ == preferred_connections_of(*item),
{
    match item.preferred_connections {
        Some(n) => n,
        None => DownloadConfig::default().default_connections,
    }
}

/// A job downloads in ranged parts when parts were persisted before, or when the server
/// resumes, the size is known and non-zero, and more than one worker is wanted.
pub open spec fn uses_ranged(metadata: HttpMetadata, existing_parts: nat, preferred: u16) -> bool {
    existing_parts > 1 || (metadata.resume_support == ResumeSupport::Supported
        && metadata.total_bytes is Some && metadata.total_bytes->0@ > 0 && preferred > 1)
}

/// Whether a job downloads in ranged parts.
pub fn should_use_ranged(metadata: &HttpMetadata, existing_parts: usize, preferred: NonZeroU16) -> (r: bool)
    ensures
        r == uses_ranged(*metadata, existing_parts as nat, preferred@),
{
    existing_parts > 1 || (metadata.resume_support == ResumeSupport::Supported && match metadata.total_bytes {
        Some(b) => b.get() > 0,
        None => false,
    } && preferred.get() > 1)
}

/// The item after learning fresh metadata: known values replace remembered ones.
pub open spec fn with_metadata(item: DownloadItem, metadata: HttpMetadata) -> DownloadItem {
    DownloadItem {
        total_bytes: if metadata.total_bytes is Some {
            metadata.total_bytes
        } else {
            item.total_bytes
        },
        etag: if metadata.etag is Some {
            metadata.etag
        } else {
            item.etag
        },
        last_modified: if metadata.last_modified is Some {
            metadata.last_modified
        } else {
            item.last_modified
        },
        ..item
    }
}

/// Merges fresh remote metadata into the item.
pub fn apply_metadata(item: &mut DownloadItem, metadata: &HttpMetadata)
    ensures
        *final(item) == with_metadata(*old(item), *metadata),
{
    if metadata.total_bytes.is_some() {
        item.total_bytes = metadata.total_bytes;
    }
    match &metadata.etag {
        Some(e) => {
            item.etag = Some(e.clone());
        },
        None => {},
    }
    match &metadata.last_modified {
        Some(l) => {
            item.last_modified = Some(l.clone());
        },
        None => {},
    }
}

/// The persisted state a resumed download is checked against.
pub fn resume_validation_for(item: &DownloadItem) -> (r: ResumeValidation)
    ensures
        r.total_bytes == item.total_bytes,
        r.etag == item.etag,
        r.resume_support == ResumeSupport::Supported,
{
    let etag = match &item.etag {
        Some(e) => Some(e.clone()),
        None => None,
    };
    ResumeValidation { total_bytes: item.total_bytes, etag, resume_support: ResumeSupport::Supported }
}

/// A partial file can only be continued when the server supports ranges.
pub fn check_resume_support(resume_from: u64, metadata: &HttpMetadata) -> (r: HttpDownloadJobResult<()>)
    ensures
        r == (if resume_from > 0 && metadata.resume_support != ResumeSupport::Supported {
            Err(HttpDownloadJobError::ResumeUnsupported)
        } else {
            Ok::<(), HttpDownloadJobError>(())
        }),
{
    if resume_from > 0 && metadata.resume_support != ResumeSupport::Supported {
        Err(HttpDownloadJobError::ResumeUnsupported)
    } else {
        Ok(())
    }
}

/// A finished single-connection transfer must have received exactly the known size.
pub fn check_complete_size(total: Option<Bytes>, downloaded: u64, status: u16) -> (r: HttpDownloadJobResult<()>)
    ensures
        r == (if total is Some && downloaded != total->0@ {
            Err(HttpDownloadJobError::UnexpectedStatus(status))
        } else {
            Ok::<(), HttpDownloadJobError>(())
        }),
{
    match total {
        Some(t) => if downloaded != t.get() {
            Err(HttpDownloadJobError::UnexpectedStatus(status))
        } else {
            Ok(())
        },
        None => Ok(()),
    }
}

/// Adds a received chunk to a byte counter.
pub fn add_chunk(counter: u64, chunk_len: usize) -> (r: HttpDownloadJobResult<u64>)
    ensures
        r == (if counter + chunk_len <= u64::MAX {
            Ok::<u64, HttpDownloadJobError>((counter + chunk_len) as u64)
        } else {
            Err(HttpDownloadJobError::ByteCountOverflow)
        }),
{
    let len = chunk_len as u64;
    if len > u64::MAX - counter {
        Err(HttpDownloadJobError::ByteCountOverflow)
    } else {
        Ok(counter + len)
    }
}

/// The single part a non-ranged transfer records: the last persisted part with its
/// cursor moved to `resume_from`, or a fresh idle part covering the whole file.
pub fn part_for_resume(existing: Option<DownloadPart>, item: &DownloadItem, resume_from: u64, now_ms: i64) -> (r: DownloadPart)
    ensures
        match existing {
            Some(p) => r == (DownloadPart { current_byte: Bytes(resume_from), ..p }),
            None => {
                &&& r.id@ == item.id@
                &&& r.download_id == item.id
                &&& r.index == 0
                &&& r.start_byte@ == 0
                &&& r.end_byte == match item.total_bytes {
                    Some(t) => if t@ > 0 {
                        Some(Bytes((t@ - 1) as u64))
                    } else {
                        None
                    },
                    None => None,
                }
                &&& r.current_byte@ == resume_from
                &&& r.status == PartStatus::Idle
                &&& r.retry_count == 0
                &&& r.updated_at == now_ms
            },
        },
{
    match existing {
        Some(p) => DownloadPart { current_byte: Bytes::new(resume_from), ..p },
        None => {
            let end_byte = match item.total_bytes {
                Some(t) => if t.get() > 0 {
                    Some(Bytes::new(t.get() - 1))
                } else {
                    None
                },
                None => None,
            };
            DownloadPart {
                id: PartId::new(item.id.get()),
                download_id: item.id,
                index: 0,
                start_byte: Bytes::new(0),
                end_byte,
                current_byte: Bytes::new(resume_from),
                status: PartStatus::Idle,
                retry_count: 0,
                updated_at: now_ms,
            }
        },
    }
}

/// Records that a single-connection transfer started at `downloaded` bytes.
pub fn mark_started(item: &mut DownloadItem, part: &mut DownloadPart, downloaded: u64, now_ms: i64)
    ensures
        *final(item) == (DownloadItem {
            status: DownloadStatus::Downloading,
            downloaded_bytes: Bytes(downloaded),
            started_at: if old(item).started_at is Some {
                old(item).started_at
            } else {
                Some(now_ms)
            },
            completed_at: None,
            failure: None,
            updated_at: now_ms,
            ..*old(item)
        }),
        *final(part) == (DownloadPart {
            status: PartStatus::Receiving,
            current_byte: Bytes(downloaded),
            updated_at: now_ms,
            ..*old(part)
        }),
{
    item.status = DownloadStatus::Downloading;
    item.downloaded_bytes = Bytes::new(downloaded);
    if item.started_at.is_none() {
        item.started_at = Some(now_ms);
    }
    item.completed_at = None;
    item.failure = None;
    item.updated_at = now_ms;
    part.status = PartStatus::Receiving;
    part.current_byte = Bytes::new(downloaded);
    part.updated_at = now_ms;
}

/// Records progress of a single-connection transfer.
pub fn mark_progress(
    item: &mut DownloadItem,
    part: &mut DownloadPart,
    downloaded: u64,
    status: DownloadStatus,
    part_status: PartStatus,
    now_ms: i64,
)
    ensures
        *final(item) == (DownloadItem {
            status,
            downloaded_bytes: Bytes(downloaded),
            updated_at: now_ms,
            ..*old(item)
        }),
        *final(part) == (DownloadPart {
            status: part_status,
            current_byte: Bytes(downloaded),
            updated_at: now_ms,
            ..*old(part)
        }),
{
    item.status = status;
    item.downloaded_bytes = Bytes::new(downloaded);
    item.updated_at = now_ms;
    part.status = part_status;
    part.current_byte = Bytes::new(downloaded);
    part.updated_at = now_ms;
}

/// Records that a job paused.
pub fn mark_paused(item: &mut DownloadItem, now_ms: i64)
    ensures
        *final(item) == (DownloadItem { status: DownloadStatus::Paused, updated_at: now_ms, ..*old(item) }),
{
    item.status = DownloadStatus::Paused;
    item.updated_at = now_ms;
}

/// Records that a single-connection transfer completed.
pub fn mark_completed(item: &mut DownloadItem, part: &mut DownloadPart, downloaded: u64, now_ms: i64)
    ensures
        *final(item) == (DownloadItem {
            status: DownloadStatus::Completed,
            downloaded_bytes: Bytes(downloaded),
            completed_at: Some(now_ms),
            failure: None,
            updated_at: now_ms,
            ..*old(item)
        }),
        *final(part) == (DownloadPart {
            status: PartStatus::Completed,
            current_byte: Bytes(downloaded),
            updated_at: now_ms,
            ..*old(part)
        }),
{
    item.status = DownloadStatus::Completed;
    item.downloaded_bytes = Bytes::new(downloaded);
    item.completed_at = Some(now_ms);
    item.failure = None;
    item.updated_at = now_ms;
    part.status = PartStatus::Completed;
    part.current_byte = Bytes::new(downloaded);
    part.updated_at = now_ms;
}

/// Records that a ranged transfer started with `downloaded` bytes already in its parts.
pub fn mark_ranged_started(item: &mut DownloadItem, downloaded: u64, now_ms: i64)
    ensures
        *final(item) == (DownloadItem {
            status: DownloadStatus::Downloading,
            downloaded_bytes: Bytes(downloaded),
            started_at: if old(item).started_at is Some {
                old(item).started_at
            } else {
                Some(now_ms)
            },
            completed_at: None,
            failure: None,
            updated_at: now_ms,
            ..*old(item)
        }),
{
    item.status = DownloadStatus::Downloading;
    item.downloaded_bytes = Bytes::new(downloaded);
    if item.started_at.is_none() {
        item.started_at = Some(now_ms);
    }
    item.completed_at = None;
    item.failure = None;
    item.updated_at = now_ms;
}

/// Records that a ranged transfer paused with `downloaded` bytes in its parts, and why,
/// when a part ran out of retries.
pub fn mark_ranged_paused(
    item: &mut DownloadItem,
    downloaded: u64,
    failure: Option<DownloadFailure>,
    now_ms: i64,
)
    ensures
        *final(item) == (DownloadItem {
            status: DownloadStatus::Paused,
            downloaded_bytes: Bytes(downloaded),
            failure: if failure is Some {
                failure
            } else {
                old(item).failure
            },
            updated_at: now_ms,
            ..*old(item)
        }),
{
    item.status = DownloadStatus::Paused;
    item.downloaded_bytes = Bytes::new(downloaded);
    if failure.is_some() {
        item.failure = failure;
    }
    item.updated_at = now_ms;
}

/// Records that the incomplete file is being finalized.
pub fn mark_preparing(item: &mut DownloadItem, downloaded: u64, now_ms: i64)
    ensures
        *final(item) == (DownloadItem {
            status: DownloadStatus::PreparingFile,
            downloaded_bytes: Bytes(downloaded),
            updated_at: now_ms,
            ..*old(item)
        }),
{
    item.status = DownloadStatus::PreparingFile;
    item.downloaded_bytes = Bytes::new(downloaded);
    item.updated_at = now_ms;
}

/// Records that a ranged transfer completed.
pub fn mark_ranged_completed(item: &mut DownloadItem, downloaded: u64, now_ms: i64)
    ensures
        *final(item) == (DownloadItem {
            status: DownloadStatus::Completed,
            downloaded_bytes: Bytes(downloaded),
            completed_at: Some(now_ms),
            failure: None,
            updated_at: now_ms,
            ..*old(item)
        }),
{
    item.status = DownloadStatus::Completed;
    item.downloaded_bytes = Bytes::new(downloaded);
    item.completed_at = Some(now_ms);
    item.failure = None;
    item.updated_at = now_ms;
}

/// Records that a job failed.
pub fn mark_error(item: &mut DownloadItem, failure: DownloadFailure, now_ms: i64)
    ensures
        *final(item) == (DownloadItem {
            status: DownloadStatus::Error,
            failure: Some(failure),
            updated_at: now_ms,
            ..*old(item)
        }),
{
    item.status = DownloadStatus::Error;
    item.failure = Some(failure);
    item.updated_at = now_ms;
}

/// Puts a failed part back in line when it has retries left.
pub fn retry_part(part: &mut DownloadPart, max_retries: u32, now_ms: i64) -> (r: bool)
    ensures
        r == (old(part).retry_count < max_retries),
        r ==> *final(part) == (DownloadPart {
            retry_count: (old(part).retry_count + 1) as u32,
            status: PartStatus::Idle,
            updated_at: now_ms,
            ..*old(part)
        }),
        !r ==> *final(part) == *old(part),
{
    if part.retry_count < max_retries {
        part.retry_count = part.retry_count + 1;
        part.status = PartStatus::Idle;
        part.updated_at = now_ms;
        true
    } else {
        false
    }
}

/// Sets a part's lifecycle state.
pub fn mark_part(part: &mut DownloadPart, status: PartStatus, now_ms: i64)
    ensures
        *final(part) == (DownloadPart { status, updated_at: now_ms, ..*old(part) }),
{
    part.status = status;
    part.updated_at = now_ms;
}

/// The parts that still need work, in order.
pub fn pending_parts(parts: &[DownloadPart]) -> (r: Vec<DownloadPart>)
    ensures
        r@ == parts@.filter(|p: DownloadPart| !part_complete(p)),
{
    let mut r: Vec<DownloadPart> = Vec::new();
    let mut i: usize = 0;
    while i < parts.len()
        invariant
            i <= parts@.len(),
            r@ == parts@.take(i as int).filter(|p: DownloadPart| !part_complete(p)),
        decreases parts.len() - i,
    {
        let p = parts[i];
        assert(parts@.take(i + 1).drop_last() == parts@.take(i as int));
        reveal_with_fuel(Seq::filter, 1);
        if !part_is_complete(&p) {
            r.push(p);
        }
        i = i + 1;
    }
    assert(parts@.take(parts@.len() as int) == parts@);
    r
}

/// Whether every part has been fully downloaded.
pub fn all_parts_complete(parts: &[DownloadPart]) -> (r: bool)
    ensures
        r == forall|i: int| 0 <= i < parts@.len() ==> part_complete(#[trigger] parts@[i]),
{
    let mut i: usize = 0;
    while i < parts.len()
        invariant
            i <= parts@.len(),
            forall|j: int| 0 <= j < i ==> part_complete(#[trigger] parts@[j]),
        decreases parts.len() - i,
    {
        if !part_is_complete(&parts[i]) {
            return false;
        }
        i = i + 1;
    }
    true
}

/// The `Range` header a resumed single-connection request sends: `bytes={start}-`.
pub fn resume_range_header(start: u64) -> (r: String)
    ensures
        r@ == "bytes="@ + decimal(start as nat) + "-"@,
{
    let mut r = String::new();
    push_str(&mut r, "bytes=");
    push_decimal(&mut r, start);
    push_str(&mut r, "-");
    r
}

/// The `Range` header a part worker sends: from the part's cursor to its end.
pub fn part_range_header(part: &DownloadPart) -> (r: HttpDownloadJobResult<String>)
    ensures
        match part.end_byte {
            None => r == Err::<String, HttpDownloadJobError>(HttpDownloadJobError::ResumeUnsupported),
            Some(end) => r is Ok && r->Ok_0@ == (ByteRange { start: part.current_byte, end }).header_text(),
        },
{
    match part.end_byte {
        None => Err(HttpDownloadJobError::ResumeUnsupported),
        Some(end) => Ok(ByteRange::new(part.current_byte, end).header_value()),
    }
}

/// Checks the Content-Range a part worker received: it must start at the part's cursor
/// and end at the part's end.
pub fn validate_part_content_range(part: &DownloadPart, header: Option<&str>) -> (r: HttpDownloadJobResult<()>)
    ensures
        match header {
            None => r == Err::<(), HttpDownloadJobError>(HttpDownloadJobError::Probe(HttpProbeError::MissingContentRange)),
            Some(h) => match content_range_of(h@) {
                None => r matches Err(HttpDownloadJobError::Probe(HttpProbeError::InvalidContentRange(t)))
                    && t@ == trim(h@),
                Some(cr) => if cr.start != part.current_byte || Some(cr.end) != part.end_byte {
                    r matches Err(HttpDownloadJobError::InvalidPartContentRange { index, actual })
                        && index == part.index && actual@ == h@
                } else {
                    r == Ok::<(), HttpDownloadJobError>(())
                },
            },
        },
{
    let actual = match header {
        Some(h) => h,
        None => return Err(HttpDownloadJobError::Probe(HttpProbeError::MissingContentRange)),
    };
    let content_range = match parse_content_range(actual) {
        Ok(cr) => cr,
        Err(e) => return Err(HttpDownloadJobError::Probe(e)),
    };
    let end_matches = match part.end_byte {
        Some(e) => e.get() == content_range.end.get(),
        None => false,
    };
    if content_range.start.get() != part.current_byte.get() || !end_matches {
        let mut owned = String::new();
        push_str(&mut owned, actual);
        return Err(HttpDownloadJobError::InvalidPartContentRange { index: part.index, actual: owned });
    }
    Ok(())
}

/// Name of the incomplete file next to the final one: the file name followed by the
/// extension.
pub fn incomplete_file_name(file_name: &str, extension: &str) -> (r: String)
    ensures
        r@ == file_name@ + extension@,
{
    let mut r = String::new();
    push_str(&mut r, file_name);
    push_str(&mut r, extension);
    r
}

/// The parts a ranged transfer works on: the persisted ones when there are several,
/// otherwise a fresh split of the known total into `preferred` parts.
pub fn plan_ranged_parts(
    download_id: DownloadId,
    total: Bytes,
    preferred: NonZeroU16,
    existing: Vec<DownloadPart>,
    now_ms: i64,
) -> (r: HttpDownloadJobResult<Vec<DownloadPart>>)
    ensures
        existing@.len() > 1 ==> r is Ok && r->Ok_0@ == existing@,
        existing@.len() <= 1 ==> match r {
            Ok(parts) => split_result_holds(
                Ok(parts),
                download_id,
                Some(total),
                preferred@,
                1,
                now_ms,
            ),
            Err(HttpDownloadJobError::RangeSplit(e)) => split_result_holds(
                Err(e),
                download_id,
                Some(total),
                preferred@,
                1,
                now_ms,
            ),
            Err(_) => false,
        },
{
    if existing.len() > 1 {
        return Ok(existing);
    }
    match split_fixed_ranges(download_id, Some(total), preferred.get(), now_ms) {
        Ok(parts) => Ok(parts),
        Err(e) => Err(HttpDownloadJobError::RangeSplit(e)),
    }
}

/// How one part worker ended.
#[derive(Debug, Clone, PartialEq, Eq)]
pub enum PartWorkerOutcome {
    /// The part was fully downloaded.
    Completed,
    /// The transfer was cancelled.
    Canceled,
    /// The part failed with this error; the part is as the worker left it.
    Failed(DownloadPart, HttpDownloadJobError),
}

/// What the ranged transfer does after a worker ended.
#[derive(Debug, Clone, PartialEq, Eq)]
pub enum RangedStep {
    /// Keep scheduling workers.
    Continue,
    /// A worker failed and its part went back in line after the others; persist it.
    Retry(DownloadPart),
    /// The transfer was cancelled: stop every worker.
    Cancelled,
    /// A part ran out of retries: stop every worker and pause with this error.
    Failed(HttpDownloadJobError),
}

/// Worker pool state of a ranged transfer: the parts waiting for a worker, in order,
/// and how many workers run, never more than the limit.
#[derive(Debug)]
pub struct RangedWorkers {
    pending: VecDeque<DownloadPart>,
    running: usize,
    limit: usize,
}

impl RangedWorkers {
    /// Parts waiting for a worker, in the order they will get one.
    pub closed spec fn pending(&self) -> Seq<DownloadPart> {
        self.pending@
    }

    /// Number of running workers.
    pub closed spec fn running(&self) -> nat {
        self.running as nat
    }

    /// Most workers that may run at once.
    pub closed spec fn limit(&self) -> nat {
        self.limit as nat
    }

    /// At least one worker is allowed and no more than the limit run.
    #[verifier::type_invariant]
    spec fn within_limit(self) -> bool {
        1 <= self.limit && self.running <= self.limit
    }

    /// A pool with no running worker, waiting to work on the parts that are not
    /// complete, in their order, with up to `limit` workers.
    pub fn new(parts: &[DownloadPart], limit: NonZeroU16) -> (r: Self)
        ensures
            1 <= r.limit(),
            r.pending() == parts@.filter(|p: DownloadPart| !part_complete(p)),
            r.running() == 0,
            r.limit() == limit@ as nat,
    {
        let waiting = pending_parts(parts);
        let mut pending: VecDeque<DownloadPart> = VecDeque::new();
        let mut i: usize = 0;
        while i < waiting.len()
            invariant
                i <= waiting.len(),
                pending@ == waiting@.take(i as int),
            decreases waiting.len() - i,
        {
            pending.push_back(waiting[i]);
            i = i + 1;
            assert(pending@ =~= waiting@.take(i as int));
        }
        assert(waiting@.take(i as int) =~= waiting@);
        RangedWorkers { pending, running: 0, limit: limit.get() as usize }
    }

    /// Number of running workers, never more than the limit.
    pub fn running_count(&self) -> (r: usize)
        ensures
            r == self.running(),
            1 <= self.limit(),
            r <= self.limit(),
    {
        proof {
            use_type_invariant(self);
        }
        self.running
    }

    /// Whether no worker runs.
    pub fn is_idle(&self) -> (r: bool)
        ensures
            r == (self.running() == 0),
    {
        self.running == 0
    }

    /// The next part to hand to a new worker, if the limit allows another worker and a
    /// part is waiting; it then counts as running.
    pub fn next_part(&mut self) -> (r: Option<DownloadPart>)
        ensures
            final(self).running() <= final(self).limit(),
            final(self).limit() == old(self).limit(),
            if old(self).running() < old(self).limit() && old(self).pending().len() > 0 {
                &&& r == Some(old(self).pending()[0])
                &&& final(self).pending() == old(self).pending().drop_first()
                &&& final(self).running() == old(self).running() + 1
            } else {
                &&& r is None
                &&& final(self).pending() == old(self).pending()
                &&& final(self).running() == old(self).running()
            },
    {
        proof {
            use_type_invariant(&*self);
        }
        if self.running < self.limit {
            let mut pending: VecDeque<DownloadPart> = VecDeque::new();
            std::mem::swap(&mut pending, &mut self.pending);
            let next = pending.pop_front();
            self.pending = pending;
            match next {
                Some(part) => {
                    self.running = self.running + 1;
                    proof {
                        assert(self.pending@ =~= old(self).pending@.drop_first());
                    }
                    Some(part)
                },
                None => None,
            }
        } else {
            None
        }
    }

    /// Takes the outcome of a finished worker. A failed part with retries left goes
    /// back in line after the others with one more retry counted.
    pub fn finished(&mut self, outcome: PartWorkerOutcome, max_retries: u32, now_ms: i64) -> (r:
        RangedStep)
        requires
            old(self).running() > 0,
        ensures
            final(self).running() <= final(self).limit(),
            final(self).limit() == old(self).limit(),
            final(self).running() == old(self).running() - 1,
            match outcome {
                PartWorkerOutcome::Completed => r == RangedStep::Continue && final(self).pending()
                    == old(self).pending(),
                PartWorkerOutcome::Canceled => r == RangedStep::Cancelled && final(self).pending()
                    == old(self).pending(),
                PartWorkerOutcome::Failed(part, error) => if part.retry_count < max_retries {
                    let retried = DownloadPart {
                        retry_count: (part.retry_count + 1) as u32,
                        status: PartStatus::Idle,
                        updated_at: now_ms,
                        ..part
                    };
                    &&& r == RangedStep::Retry(retried)
                    &&& final(self).pending() == old(self).pending().push(retried)
                } else {
                    &&& r == RangedStep::Failed(error)
                    &&& final(self).pending() == old(self).pending()
                },
            },
    {
        proof {
            use_type_invariant(&*self);
        }
        self.running = self.running - 1;
        match outcome {
            PartWorkerOutcome::Completed => RangedStep::Continue,
            PartWorkerOutcome::Canceled => RangedStep::Cancelled,
            PartWorkerOutcome::Failed(part, error) => {
                let mut part = part;
                if retry_part(&mut part, max_retries, now_ms) {
                    let mut pending: VecDeque<DownloadPart> = VecDeque::new();
                    std::mem::swap(&mut pending, &mut self.pending);
                    pending.push_back(part);
                    self.pending = pending;
                    RangedStep::Retry(part)
                } else {
                    RangedStep::Failed(error)
                }
            },
        }
    }
}

/// How a ranged transfer ends once no worker runs.
#[derive(Debug, Clone, Copy, PartialEq, Eq, Structural)]
pub enum RangedEnd {
    /// Pause, recording the failure of the part that ran out of retries.
    PausedWithFailure,
    /// Pause without failure: cancelled, or some part is still incomplete.
    Paused,
    /// Every part is complete: finalize the file.
    Complete,
}

/// How a ranged transfer ends: a part out of retries pauses it with that failure, a
/// cancellation or an incomplete part pauses it, and otherwise it completes.
pub fn ranged_end(failed: bool, cancelled: bool, parts: &[DownloadPart]) -> (r: RangedEnd)
    ensures
        r == (if failed {
            RangedEnd::PausedWithFailure
        } else if cancelled || !(forall|i: int|
            0 <= i < parts@.len() ==> part_complete(#[trigger] parts@[i])) {
            RangedEnd::Paused
        } else {
            RangedEnd::Complete
        }),
{
    if failed {
        RangedEnd::PausedWithFailure
    } else if cancelled || !all_parts_complete(parts) {
        RangedEnd::Paused
    } else {
        RangedEnd::Complete
    }
}

/// Records how a failed job ends: a cancelled job is paused and reports nothing, any
/// other failure is recorded on the item and reported.
pub fn finish_failed_run(
    item: &mut DownloadItem,
    error: HttpDownloadJobError,
    cancelled: bool,
    now_ms: i64,
) -> (r: Option<HttpDownloadJobError>)
    ensures
        cancelled ==> r is None && *final(item) == (DownloadItem {
            status: DownloadStatus::Paused,
            updated_at: now_ms,
            ..*old(item)
        }),
        !cancelled ==> {
            &&& r == Some(error)
            &&& final(item).failure is Some
            &&& final(item).failure->0.kind == failure_kind_of(error)
            &&& final(item).failure->0.message@ == error.message()
            &&& *final(item) == (DownloadItem {
                status: DownloadStatus::Error,
                failure: final(item).failure,
                updated_at: now_ms,
                ..*old(item)
            })
        },
{
    if cancelled {
        mark_paused(item, now_ms);
        None
    } else {
        mark_error(item, error.to_failure(), now_ms);
        Some(error)
    }
}

/// A part worker needs a 206 answer.
pub fn validate_part_status(status: u16) -> (r: HttpDownloadJobResult<()>)
    ensures
        r == (if status == 206 {
            Ok::<(), HttpDownloadJobError>(())
        } else {
            Err(HttpDownloadJobError::UnexpectedStatus(status))
        }),
{
    if status == 206 {
        Ok(())
    } else {
        Err(HttpDownloadJobError::UnexpectedStatus(status))
    }
}

/// Moves a part's cursor past a received chunk.
pub fn advance_part(part: &mut DownloadPart, chunk_len: usize) -> (r: HttpDownloadJobResult<()>)
    ensures
        old(part).current_byte@ + chunk_len <= u64::MAX ==> r is Ok && *final(part) == (DownloadPart {
            current_byte: Bytes((old(part).current_byte@ + chunk_len) as u64),
            ..*old(part)
        }),
        old(part).current_byte@ + chunk_len > u64::MAX ==> r == Err::<(), HttpDownloadJobError>(
            HttpDownloadJobError::ByteCountOverflow,
        ) && *final(part) == *old(part),
{
    match add_chunk(part.current_byte.get(), chunk_len) {
        Ok(current) => {
            part.current_byte = Bytes::new(current);
            Ok(())
        },
        Err(e) => Err(e),
    }
}

} // verus!
