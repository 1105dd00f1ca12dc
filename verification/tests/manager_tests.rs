use std::collections::BTreeMap;

use raijin::download::manager::{
    active_part_count, new_item, numbered_file_name, pause_item, progress_snapshot, resume_item,
    should_publish_progress, should_start_on_boot, terminal_event,
};
use raijin::download::{
    Bytes, BytesPerSecond, DownloadEvent, DownloadFailure, DownloadId, DownloadItem, DownloadKind,
    DownloadManagerError, DownloadManagerOptions, DownloadPart, DownloadProgress, DownloadStatus,
    FailureKind, NewDownload, PartId, PartStatus,
};

fn sample_item(id: i64, status: DownloadStatus) -> DownloadItem {
    let request = NewDownload::http(
        format!("https://example.com/{id}.bin"),
        format!("{id}.bin"),
        "/downloads".to_owned(),
    );
    let mut item = new_item(DownloadId::new(id), request, format!("{id}.bin"), 10);
    item.status = status;
    item
}

fn part(index: u32, start: u64, current: u64, status: PartStatus) -> DownloadPart {
    DownloadPart {
        id: PartId::new(i64::from(index) + 1),
        download_id: DownloadId::new(1),
        index,
        start_byte: Bytes::new(start),
        end_byte: Some(Bytes::new(start + 99)),
        current_byte: Bytes::new(current),
        status,
        retry_count: 0,
        updated_at: 1,
    }
}

#[test]
fn new_item_should_start_added_and_empty() {
    let mut request = NewDownload::http(
        "https://example.com/file.bin".to_owned(),
        "file.bin".to_owned(),
        "/downloads".to_owned(),
    );
    request.headers.insert("Cookie".to_owned(), "a=b".to_owned());
    let item = new_item(DownloadId::new(3), request, "file (1).bin".to_owned(), 55);
    assert_eq!(item.id, DownloadId::new(3));
    assert_eq!(item.kind, DownloadKind::Http);
    assert_eq!(item.status, DownloadStatus::Added);
    assert_eq!(item.file_name, "file (1).bin");
    assert_eq!(item.folder, "/downloads");
    assert_eq!(item.downloaded_bytes, Bytes::zero());
    assert_eq!(item.headers.get("Cookie").map(String::as_str), Some("a=b"));
    assert_eq!((item.created_at, item.updated_at), (55, 55));
    assert_eq!(item.started_at, None);
}

#[test]
fn add_should_choose_unique_file_name_when_destination_exists() {
    assert_eq!(numbered_file_name("file.bin", 1), "file (1).bin");
    assert_eq!(numbered_file_name("archive.tar.gz", 2), "archive.tar (2).gz");
    assert_eq!(numbered_file_name("README", 3), "README (3)");
    assert_eq!(numbered_file_name(".bashrc", 4), ".bashrc (4)");
}

#[test]
fn boot_should_restart_only_unfinished_jobs() {
    assert!(should_start_on_boot(DownloadStatus::Queued));
    assert!(should_start_on_boot(DownloadStatus::Downloading));
    assert!(should_start_on_boot(DownloadStatus::Retrying));
    assert!(should_start_on_boot(DownloadStatus::PreparingFile));
    assert!(!should_start_on_boot(DownloadStatus::Added));
    assert!(!should_start_on_boot(DownloadStatus::Paused));
    assert!(!should_start_on_boot(DownloadStatus::Completed));
    assert!(!should_start_on_boot(DownloadStatus::Error));
}

#[test]
fn pause_and_resume_should_update_the_item() {
    let mut item = sample_item(1, DownloadStatus::Downloading);
    item.downloaded_bytes = Bytes::new(40);
    item.failure = Some(DownloadFailure { kind: FailureKind::Network, message: "x".to_owned() });
    pause_item(&mut item, 100, Some(Bytes::new(70)));
    assert_eq!(item.status, DownloadStatus::Paused);
    assert_eq!(item.downloaded_bytes, Bytes::new(70));
    assert_eq!(item.updated_at, 100);
    pause_item(&mut item, 101, Some(Bytes::new(10)));
    assert_eq!(item.downloaded_bytes, Bytes::new(70));

    resume_item(&mut item, 200);
    assert_eq!(item.status, DownloadStatus::Queued);
    assert_eq!(item.failure, None);
    assert_eq!(item.updated_at, 200);
}

#[test]
fn progress_snapshot_should_prefer_live_counters() {
    let item = sample_item(1, DownloadStatus::Downloading);
    let live = progress_snapshot(Bytes::new(500), 3, &item, &[]);
    assert_eq!(live.downloaded_bytes, Bytes::new(500));
    assert_eq!(live.active_part_count, 3);

    let parts = [
        part(0, 0, 50, PartStatus::Receiving),
        part(1, 100, 130, PartStatus::Idle),
        part(2, 200, 200, PartStatus::Connecting),
    ];
    let persisted = progress_snapshot(Bytes::new(10), 0, &item, &parts);
    assert_eq!(persisted.downloaded_bytes, Bytes::new(80));
    assert_eq!(persisted.active_part_count, 2);
    assert_eq!(persisted.speed, BytesPerSecond::zero());
    assert_eq!(persisted.eta_seconds, None);
}

#[test]
fn active_part_count_should_count_one_for_partless_download() {
    assert_eq!(active_part_count(&[], DownloadStatus::Downloading), 1);
    assert_eq!(active_part_count(&[], DownloadStatus::Paused), 0);
    assert_eq!(active_part_count(&[part(0, 0, 0, PartStatus::Completed)], DownloadStatus::Downloading), 0);
}

#[test]
fn progress_should_publish_only_when_changed_or_active() {
    let idle = DownloadProgress {
        downloaded_bytes: Bytes::new(1),
        total_bytes: None,
        speed: BytesPerSecond::zero(),
        eta_seconds: None,
        active_part_count: 0,
    };
    assert!(should_publish_progress(idle, None));
    assert!(!should_publish_progress(idle, Some(idle)));
    let active = DownloadProgress { active_part_count: 1, ..idle };
    assert!(should_publish_progress(active, Some(active)));
}

#[test]
fn terminal_event_should_report_paused_items_as_paused() {
    let paused = sample_item(1, DownloadStatus::Paused);
    assert!(matches!(terminal_event(paused), DownloadEvent::DownloadPaused { .. }));
    let done = sample_item(2, DownloadStatus::Completed);
    assert!(matches!(terminal_event(done), DownloadEvent::DownloadChanged { .. }));
}

#[test]
fn manager_options_and_errors_should_match_defaults() {
    let options = DownloadManagerOptions::default();
    assert_eq!(options.command_buffer, 64);
    assert_eq!(options.event_buffer, 256);
    assert_eq!(
        DownloadManagerError::NotFound(DownloadId::new(12)).to_string(),
        "download `12` not found"
    );
    assert_eq!(DownloadManagerError::Stopped.to_string(), "download manager is stopped");
    let _unused: BTreeMap<String, String> = BTreeMap::new();
}
