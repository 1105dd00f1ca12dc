use raijin::download::job::{
    advance_part, finish_failed_run, plan_ranged_parts, ranged_end, validate_part_status,
    PartWorkerOutcome, RangedEnd, RangedStep, RangedWorkers,
};
use std::collections::BTreeMap;

use raijin::db::rows::{download_from_row, download_to_row};
use raijin::db::DbError;
use raijin::download::http::{HttpMetadata, HttpProbeError};
use raijin::download::job::{
    add_chunk, all_parts_complete, apply_metadata, check_complete_size, check_resume_support,
    checked_downloaded_from_parts, incomplete_file_name, mark_completed, mark_error, mark_paused,
    mark_progress, mark_started,
    part_for_resume, part_range_header, pending_parts, preferred_connections, resume_range_header,
    retry_part, should_use_ranged, validate_download_status, validate_part_content_range,
    HttpDownloadJobConfig, HttpDownloadJobError,
};
use raijin::download::{
    Bytes, DownloadFailure, DownloadId, DownloadItem, DownloadKind, DownloadPart, DownloadStatus,
    FailureKind, NonZeroU16, PartId, PartStatus, ResumeSupport,
};

fn item(total: Option<u64>) -> DownloadItem {
    DownloadItem {
        id: DownloadId::new(4),
        kind: DownloadKind::Http,
        url: "https://example.com/a.bin".to_owned(),
        download_page: None,
        headers: BTreeMap::new(),
        file_name: "a.bin".to_owned(),
        folder: "/d".to_owned(),
        status: DownloadStatus::Queued,
        total_bytes: total.map(Bytes::new),
        downloaded_bytes: Bytes::zero(),
        etag: None,
        last_modified: None,
        preferred_connections: None,
        speed_limit: None,
        failure: None,
        created_at: 1,
        started_at: None,
        completed_at: None,
        updated_at: 1,
    }
}

fn part(index: u32, start: u64, end: u64, current: u64, status: PartStatus) -> DownloadPart {
    DownloadPart {
        id: PartId::new(i64::from(index)),
        download_id: DownloadId::new(4),
        index,
        start_byte: Bytes::new(start),
        end_byte: Some(Bytes::new(end)),
        current_byte: Bytes::new(current),
        status,
        retry_count: 0,
        updated_at: 1,
    }
}

fn metadata(resume_support: ResumeSupport, total: Option<u64>) -> HttpMetadata {
    HttpMetadata {
        url: "https://example.com/a.bin".to_owned(),
        resume_support,
        total_bytes: total.map(Bytes::new),
        response_content_length: None,
        content_range: None,
        etag: Some("\"e\"".to_owned()),
        last_modified: None,
        content_type: None,
        status: 206,
    }
}

#[test]
fn job_config_should_use_download_defaults() {
    let config = HttpDownloadJobConfig::default();
    assert_eq!(config.incomplete_extension, ".raijin-part");
    assert_eq!(config.progress_interval_ms, 500);
    assert_eq!(config.max_retries, 3);
    assert_eq!(incomplete_file_name("a.bin", &config.incomplete_extension), "a.bin.raijin-part");
}

#[test]
fn download_status_should_require_partial_content_for_resume() {
    assert_eq!(validate_download_status(206, Some(10)), Ok(()));
    assert_eq!(validate_download_status(200, Some(10)), Err(HttpDownloadJobError::RangeIgnored));
    assert_eq!(validate_download_status(500, Some(10)), Err(HttpDownloadJobError::UnexpectedStatus(500)));
    assert_eq!(validate_download_status(204, None), Ok(()));
    assert_eq!(validate_download_status(404, None), Err(HttpDownloadJobError::UnexpectedStatus(404)));
}

#[test]
fn job_should_resume_partial_file_with_range() {
    assert_eq!(resume_range_header(1024), "bytes=1024-");
    assert_eq!(check_resume_support(10, &metadata(ResumeSupport::Unsupported, Some(20))),
        Err(HttpDownloadJobError::ResumeUnsupported));
    assert_eq!(check_resume_support(0, &metadata(ResumeSupport::Unsupported, Some(20))), Ok(()));
    let fresh = part_for_resume(None, &item(Some(100)), 40, 9);
    assert_eq!(fresh.end_byte, Some(Bytes::new(99)));
    assert_eq!(fresh.current_byte, Bytes::new(40));
    assert_eq!(fresh.status, PartStatus::Idle);
    let existing = part(0, 0, 99, 10, PartStatus::Error);
    let moved = part_for_resume(Some(existing), &item(Some(100)), 60, 9);
    assert_eq!(moved, DownloadPart { current_byte: Bytes::new(60), ..existing });
}

#[test]
fn job_should_pause_mid_download_and_persist_state() {
    let total: u64 = 128 * 1024;
    let mut item = item(Some(total));
    let mut single = part(0, 0, total - 1, 0, PartStatus::Idle);
    mark_started(&mut item, &mut single, 0, 50);
    assert_eq!(item.status, DownloadStatus::Downloading);
    let mid = add_chunk(0, 30 * 1024).expect("chunk fits");
    mark_progress(&mut item, &mut single, mid, DownloadStatus::Downloading, PartStatus::Receiving, 60);
    mark_paused(&mut item, 70);

    let row = download_to_row(&item).expect("counts fit");
    let persisted = download_from_row(row).expect("row decodes");
    assert_eq!(persisted.status, DownloadStatus::Paused);
    assert!(persisted.downloaded_bytes.get() < persisted.total_bytes.unwrap_or(Bytes::new(u64::MAX)).get());
    assert_eq!(persisted, item);
    assert_eq!(single.current_byte, Bytes::new(mid));
}

#[test]
fn job_state_should_move_through_start_completion_and_error() {
    let mut item = item(Some(10));
    let mut single = part(0, 0, 9, 0, PartStatus::Idle);
    mark_started(&mut item, &mut single, 3, 50);
    assert_eq!(item.status, DownloadStatus::Downloading);
    assert_eq!(item.started_at, Some(50));
    assert_eq!(single.status, PartStatus::Receiving);
    mark_completed(&mut item, &mut single, 10, 60);
    assert_eq!(item.status, DownloadStatus::Completed);
    assert_eq!(item.completed_at, Some(60));
    assert_eq!(single.current_byte, Bytes::new(10));
    mark_error(
        &mut item,
        DownloadFailure { kind: FailureKind::Network, message: "lost".to_owned() },
        70,
    );
    assert_eq!(item.status, DownloadStatus::Error);
}

#[test]
fn ranged_job_should_resume_from_persisted_part_state() {
    let parts = [
        part(0, 0, 9, 10, PartStatus::Completed),
        part(1, 10, 19, 15, PartStatus::Error),
    ];
    assert_eq!(checked_downloaded_from_parts(&parts), Some(15));
    assert!(!all_parts_complete(&parts));
    assert_eq!(pending_parts(&parts), vec![parts[1]]);
    assert_eq!(part_range_header(&parts[1]), Ok("bytes=15-19".to_owned()));
    let mut blind = parts[1];
    blind.end_byte = None;
    assert_eq!(part_range_header(&blind), Err(HttpDownloadJobError::ResumeUnsupported));
}

#[test]
fn ranged_job_should_pause_when_server_validation_fails() {
    let worker = part(2, 20, 29, 22, PartStatus::Receiving);
    assert_eq!(validate_part_content_range(&worker, Some("bytes 22-29/30")), Ok(()));
    assert_eq!(
        validate_part_content_range(&worker, Some("bytes 20-29/30")),
        Err(HttpDownloadJobError::InvalidPartContentRange { index: 2, actual: "bytes 20-29/30".to_owned() })
    );
    assert_eq!(
        validate_part_content_range(&worker, None),
        Err(HttpDownloadJobError::Probe(HttpProbeError::MissingContentRange))
    );
    let mut retried = worker;
    assert!(retry_part(&mut retried, 1, 5));
    assert_eq!(retried.retry_count, 1);
    assert_eq!(retried.status, PartStatus::Idle);
    assert!(!retry_part(&mut retried, 1, 6));
}

#[test]
fn ranged_choice_should_need_resume_support_and_size() {
    let two = NonZeroU16::new(2).expect("non-zero");
    assert!(should_use_ranged(&metadata(ResumeSupport::Supported, Some(100)), 0, two));
    assert!(!should_use_ranged(&metadata(ResumeSupport::Unsupported, Some(100)), 0, two));
    assert!(!should_use_ranged(&metadata(ResumeSupport::Supported, Some(0)), 0, two));
    assert!(should_use_ranged(&metadata(ResumeSupport::Unsupported, None), 2, two));
    assert_eq!(preferred_connections(&item(None)).get(), 8);
}

#[test]
fn job_should_atomically_rename_incomplete_file_on_completion() {
    assert_eq!(check_complete_size(Some(Bytes::new(10)), 10, 200), Ok(()));
    assert_eq!(check_complete_size(Some(Bytes::new(10)), 9, 200), Err(HttpDownloadJobError::UnexpectedStatus(200)));
    assert_eq!(check_complete_size(None, 9, 200), Ok(()));
    assert_eq!(add_chunk(u64::MAX - 1, 2), Err(HttpDownloadJobError::ByteCountOverflow));
    assert_eq!(add_chunk(5, 2), Ok(7));
}

#[test]
fn metadata_should_refresh_item_and_errors_should_map_to_failures() {
    let mut item = item(None);
    apply_metadata(&mut item, &metadata(ResumeSupport::Supported, Some(77)));
    assert_eq!(item.total_bytes, Some(Bytes::new(77)));
    assert_eq!(item.etag.as_deref(), Some("\"e\""));

    let failure = HttpDownloadJobError::Db(DbError::NotFound { entity: "download", id: 4 }).to_failure();
    assert_eq!(failure.kind, FailureKind::Disk);
    assert_eq!(failure.message, "download `4` not found");
    let failure = HttpDownloadJobError::UnexpectedStatus(503).to_failure();
    assert_eq!(failure.kind, FailureKind::Network);
    assert_eq!(failure.message, "unexpected HTTP status `503`");
}

#[test]
fn ranged_workers_should_respect_limit_and_retry_failed_parts() {
    let parts = [
        part(0, 0, 9, 10, PartStatus::Completed),
        part(1, 10, 19, 10, PartStatus::Idle),
        part(2, 20, 29, 20, PartStatus::Idle),
        part(3, 30, 39, 30, PartStatus::Idle),
    ];
    let two = NonZeroU16::new(2).expect("non-zero");
    let mut pool = RangedWorkers::new(&parts, two);
    assert_eq!(pool.next_part().map(|p| p.index), Some(1));
    assert_eq!(pool.next_part().map(|p| p.index), Some(2));
    assert_eq!(pool.next_part(), None);
    assert_eq!(pool.running_count(), 2);

    let failed = pool.finished(
        PartWorkerOutcome::Failed(parts[1], HttpDownloadJobError::UnexpectedStatus(500)),
        1,
        77,
    );
    let retried = DownloadPart { retry_count: 1, status: PartStatus::Idle, updated_at: 77, ..parts[1] };
    assert_eq!(failed, RangedStep::Retry(retried));
    assert_eq!(pool.next_part().map(|p| p.index), Some(3));
    assert_eq!(pool.finished(PartWorkerOutcome::Completed, 1, 78), RangedStep::Continue);
    assert_eq!(pool.next_part(), Some(retried));
    assert_eq!(
        pool.finished(PartWorkerOutcome::Failed(retried, HttpDownloadJobError::RangeIgnored), 1, 79),
        RangedStep::Failed(HttpDownloadJobError::RangeIgnored)
    );
    assert_eq!(pool.finished(PartWorkerOutcome::Canceled, 1, 80), RangedStep::Cancelled);
    assert!(pool.is_idle());
}

#[test]
fn ranged_plan_and_end_should_follow_parts() {
    let four = NonZeroU16::new(4).expect("non-zero");
    let planned = plan_ranged_parts(DownloadId::new(4), Bytes::new(100), four, Vec::new(), 3)
        .expect("ids fit");
    assert_eq!(planned.len(), 4);
    let kept = plan_ranged_parts(DownloadId::new(4), Bytes::new(100), four, planned.clone(), 3)
        .expect("kept");
    assert_eq!(kept, planned);

    let done = [part(0, 0, 9, 10, PartStatus::Completed)];
    assert_eq!(ranged_end(false, false, &done), RangedEnd::Complete);
    assert_eq!(ranged_end(false, true, &done), RangedEnd::Paused);
    assert_eq!(ranged_end(true, false, &done), RangedEnd::PausedWithFailure);
    assert_eq!(ranged_end(false, false, &[part(0, 0, 9, 4, PartStatus::Idle)]), RangedEnd::Paused);

    let mut cancelled = item(Some(10));
    assert_eq!(finish_failed_run(&mut cancelled, HttpDownloadJobError::RangeIgnored, true, 9), None);
    assert_eq!(cancelled.status, DownloadStatus::Paused);
    let mut failed = item(Some(10));
    assert_eq!(
        finish_failed_run(&mut failed, HttpDownloadJobError::RangeIgnored, false, 9),
        Some(HttpDownloadJobError::RangeIgnored)
    );
    assert_eq!(failed.status, DownloadStatus::Error);
    assert_eq!(
        failed.failure.map(|f| (f.kind, f.message)),
        Some((FailureKind::Validation, "remote server ignored byte range resume request".to_owned()))
    );
}

#[test]
fn part_workers_should_need_partial_content_and_advance() {
    assert_eq!(validate_part_status(206), Ok(()));
    assert_eq!(validate_part_status(200), Err(HttpDownloadJobError::UnexpectedStatus(200)));
    let mut worker = part(0, 0, 99, 10, PartStatus::Receiving);
    assert_eq!(advance_part(&mut worker, 15), Ok(()));
    assert_eq!(worker.current_byte, Bytes::new(25));
    let mut full = part(0, 0, 99, u64::MAX, PartStatus::Receiving);
    assert_eq!(advance_part(&mut full, 1), Err(HttpDownloadJobError::ByteCountOverflow));
    assert_eq!(full.current_byte, Bytes::new(u64::MAX));
}
