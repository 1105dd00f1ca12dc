use std::collections::BTreeMap;

use raijin::download::{
    Bytes, BytesPerSecond, DownloadEvent, DownloadFailure, DownloadId, DownloadItem, DownloadKind,
    DownloadProgress, DownloadStatus, FailureKind,
};
use raijin::monitor::{apply_event, DownloadMonitorError, Projection, SpeedMeter};

fn item(id: i64, status: DownloadStatus, downloaded_bytes: Bytes) -> DownloadItem {
    DownloadItem {
        id: DownloadId::new(id),
        kind: DownloadKind::Http,
        url: format!("https://example.com/file-{id}.bin"),
        download_page: None,
        headers: BTreeMap::new(),
        file_name: format!("file-{id}.bin"),
        folder: "C:/Downloads".to_owned(),
        status,
        total_bytes: Some(Bytes::new(200)),
        downloaded_bytes,
        etag: None,
        last_modified: None,
        preferred_connections: None,
        speed_limit: None,
        failure: if status == DownloadStatus::Error {
            Some(DownloadFailure {
                kind: FailureKind::Network,
                message: "network error".to_owned(),
            })
        } else {
            None
        },
        created_at: 1,
        started_at: None,
        completed_at: None,
        updated_at: 1,
    }
}

fn progress(downloaded: u64, total: u64) -> DownloadProgress {
    DownloadProgress {
        downloaded_bytes: Bytes::new(downloaded),
        total_bytes: Some(Bytes::new(total)),
        speed: BytesPerSecond::zero(),
        eta_seconds: None,
        active_part_count: 1,
    }
}

#[test]
fn speed_meter_should_calculate_delta_speed() {
    let mut meter = SpeedMeter::new();

    assert_eq!(meter.record(1_000, Bytes::new(100)), BytesPerSecond::zero());
    assert_eq!(meter.record(2_000, Bytes::new(1_100)), BytesPerSecond::new(1_000));
}

#[test]
fn speed_meter_should_average_within_window() {
    let mut meter = SpeedMeter::with_window(Some(2_000));

    let _ = meter.record(0, Bytes::zero());
    let _ = meter.record(1_000, Bytes::new(1_000));
    let speed = meter.record(3_000, Bytes::new(2_000));

    assert_eq!(speed, BytesPerSecond::new(500));
}

#[test]
fn speed_meter_should_report_zero_when_bytes_go_back() {
    let mut meter = SpeedMeter::new();
    let _ = meter.record(1_000, Bytes::new(500));
    assert_eq!(meter.record(2_000, Bytes::new(100)), BytesPerSecond::zero());
}

#[test]
fn projection_should_split_active_and_completed_from_items() {
    let mut projection = Projection::new(None);
    let active = item(1, DownloadStatus::Downloading, Bytes::new(100));
    let completed = item(2, DownloadStatus::Completed, Bytes::new(200));

    projection.apply_item(&active, 1_000);
    projection.apply_item(&completed, 1_000);

    assert!(projection.state().active.contains_key(&active.id.get()));
    assert!(projection.state().completed.contains_key(&completed.id.get()));
}

#[test]
fn projection_should_compute_speed_and_eta_from_progress() {
    let mut projection = Projection::new(None);
    let mut active = item(1, DownloadStatus::Downloading, Bytes::zero());
    active.total_bytes = Some(Bytes::new(2_000));
    projection.apply_item(&active, 1_000);

    projection.apply_progress(active.id, progress(1_000, 2_000), 2_000);

    let view = projection.state().active.get(&active.id.get());
    assert_eq!(view.map(|view| view.speed), Some(BytesPerSecond::new(1_000)));
    assert_eq!(view.and_then(|view| view.eta_seconds), Some(1));
}

#[test]
fn projection_should_remove_downloads() {
    let mut projection = Projection::new(None);
    let active = item(1, DownloadStatus::Downloading, Bytes::new(100));
    projection.apply_item(&active, 1_000);

    projection.remove(active.id);

    assert!(!projection.state().active.contains_key(&active.id.get()));
}

#[test]
fn projection_should_reset_speed_history_between_lifecycles() {
    let mut projection = Projection::new(None);
    let active = item(1, DownloadStatus::Downloading, Bytes::zero());
    projection.apply_item(&active, 1_000);
    projection.apply_progress(active.id, progress(1_000, 3_000), 2_000);
    projection.reset_meter(active.id);

    projection.apply_progress(active.id, progress(1_000, 3_000), 3_000);
    let after_reset = projection.state().active.get(&active.id.get()).map(|view| view.speed);

    projection.apply_progress(active.id, progress(2_000, 3_000), 4_000);
    let after_new_delta = projection.state().active.get(&active.id.get()).map(|view| view.speed);

    assert_eq!(after_reset, Some(BytesPerSecond::zero()));
    assert_eq!(after_new_delta, Some(BytesPerSecond::new(1_000)));
}

#[test]
fn projection_should_record_failure_for_unknown_download() {
    let mut projection = Projection::new(None);
    let id = DownloadId::new(42);

    projection.apply_failure(
        id,
        DownloadFailure {
            kind: FailureKind::Network,
            message: "network error".to_owned(),
        },
        1_234,
    );

    let view = projection.state().completed.get(&id.get());
    assert_eq!(view.map(|view| view.status), Some(DownloadStatus::Error));
    assert_eq!(view.map(|view| view.updated_at), Some(1_234));
}

#[test]
fn projection_should_move_failed_active_download_to_completed() {
    let mut projection = Projection::new(None);
    let active = item(5, DownloadStatus::Downloading, Bytes::new(10));
    projection.apply_item(&active, 1_000);
    projection.apply_failure(
        active.id,
        DownloadFailure { kind: FailureKind::Server, message: "boom".to_owned() },
        2_000,
    );
    assert!(!projection.state().active.contains_key(&5));
    let view = projection.state().completed.get(&5).expect("failed view");
    assert_eq!(view.status, DownloadStatus::Error);
    assert_eq!(view.file_name, "file-5.bin");
    assert_eq!(view.failure.as_ref().map(|f| f.message.as_str()), Some("boom"));
}

#[test]
fn monitor_should_project_events_into_state() -> Result<(), DownloadMonitorError> {
    let mut projection = Projection::new(None);
    let item = item(1, DownloadStatus::Downloading, Bytes::zero());

    apply_event(&mut projection, DownloadEvent::DownloadAdded { item: item.clone() }, 1_000)?;
    apply_event(
        &mut projection,
        DownloadEvent::DownloadProgress {
            id: item.id,
            progress: DownloadProgress {
                downloaded_bytes: Bytes::new(100),
                total_bytes: Some(Bytes::new(1_000)),
                speed: BytesPerSecond::zero(),
                eta_seconds: None,
                active_part_count: 1,
            },
        },
        2_000,
    )?;

    assert_eq!(
        projection.state().active.get(&item.id.get()).map(|view| view.downloaded_bytes),
        Some(Bytes::new(100))
    );
    Ok(())
}

#[test]
fn monitor_should_load_boot_items_and_handle_removal() -> Result<(), DownloadMonitorError> {
    let mut projection = Projection::new(Some(5_000));
    let downloads = vec![
        item(1, DownloadStatus::Queued, Bytes::zero()),
        item(2, DownloadStatus::Completed, Bytes::new(200)),
        item(3, DownloadStatus::Removed, Bytes::zero()),
    ];
    apply_event(&mut projection, DownloadEvent::BootLoaded { downloads }, 1_000)?;
    assert_eq!(projection.state().active.len(), 1);
    assert_eq!(projection.state().completed.len(), 1);

    apply_event(&mut projection, DownloadEvent::DownloadRemoved { id: DownloadId::new(2) }, 2_000)?;
    assert!(projection.state().completed.is_empty());
    apply_event(&mut projection, DownloadEvent::Shutdown, 3_000)?;
    assert_eq!(projection.state().active.len(), 1);
    Ok(())
}

#[test]
fn monitor_should_reject_failure_time_out_of_range() {
    let mut projection = Projection::new(None);
    let result = apply_event(
        &mut projection,
        DownloadEvent::DownloadFailed {
            id: DownloadId::new(9),
            failure: DownloadFailure { kind: FailureKind::Disk, message: "disk".to_owned() },
        },
        u64::MAX,
    );
    assert_eq!(result, Err(DownloadMonitorError::ClockOutOfRange));
    assert!(projection.state().completed.is_empty());
    assert_eq!(
        DownloadMonitorError::ClockOutOfRange.to_string(),
        "system clock timestamp is out of range"
    );
}
