use std::collections::BTreeMap;

use raijin::db::rows::{
    download_from_columns, download_from_row, download_to_columns, download_to_row, part_from_row, part_to_row, queue_from_row,
    queue_item_from_row, queue_item_to_row, queue_to_row, QueueItemRow,
};
use raijin::db::DbError;
use raijin::download::{
    Bytes, BytesPerSecond, DownloadFailure, DownloadId, DownloadItem, DownloadKind, DownloadPart,
    DownloadStatus, FailureKind, NonZeroU16, PartId, PartStatus, QueueId,
};
use raijin::queue::{Queue, QueueItem};

fn item() -> DownloadItem {
    let mut headers = BTreeMap::new();
    headers.insert("Cookie".to_owned(), "a=b".to_owned());
    DownloadItem {
        id: DownloadId::new(3),
        kind: DownloadKind::Http,
        url: "https://example.com/a.bin".to_owned(),
        download_page: Some("https://example.com".to_owned()),
        headers,
        file_name: "a.bin".to_owned(),
        folder: "/downloads".to_owned(),
        status: DownloadStatus::Paused,
        total_bytes: Some(Bytes::new(100)),
        downloaded_bytes: Bytes::new(40),
        etag: Some("\"e\"".to_owned()),
        last_modified: None,
        preferred_connections: NonZeroU16::new(4),
        speed_limit: Some(BytesPerSecond::new(1024)),
        failure: Some(DownloadFailure { kind: FailureKind::Server, message: "503".to_owned() }),
        created_at: 1,
        started_at: Some(2),
        completed_at: None,
        updated_at: 3,
    }
}

#[test]
fn download_row_should_round_trip_an_updated_item() {
    let mut original = item();
    original.status = DownloadStatus::Paused;
    original.downloaded_bytes = Bytes::new(128);
    original.failure = Some(DownloadFailure {
        kind: FailureKind::Network,
        message: "connection closed".to_owned(),
    });
    original.updated_at = 2;
    let row = download_to_row(&original).expect("counts fit");
    assert_eq!(row.kind, "http");
    assert_eq!(row.status, "paused");
    assert_eq!(row.headers_json.as_deref(), Some("{\"Cookie\":\"a=b\"}"));
    assert_eq!(row.error_kind.as_deref(), Some("network"));
    assert_eq!(row.downloaded_bytes, 128);
    let back = download_from_row(row).expect("row decodes");
    assert_eq!(back, original);
}

#[test]
fn download_rows_should_report_bad_columns() {
    let mut row = download_to_row(&item()).expect("counts fit");
    row.status = "finished".to_owned();
    let error = download_from_row(row.clone()).expect_err("unknown status");
    assert_eq!(error.to_string(), "unknown DownloadStatus value `finished`");

    row.status = "paused".to_owned();
    row.downloaded_bytes = -1;
    assert_eq!(
        download_from_row(row.clone()),
        Err(DbError::IntegerOutOfRange { field: "downloaded_bytes", value: -1 })
    );
    row.headers_json = Some("not json".to_owned());
    assert!(matches!(download_from_row(row), Err(DbError::Json(_))));

    let mut huge = item();
    huge.total_bytes = Some(Bytes::new(u64::MAX));
    assert_eq!(
        download_to_row(&huge),
        Err(DbError::IntegerOutOfRange { field: "total_bytes", value: i128::from(u64::MAX) })
    );
}

#[test]
fn parts_should_replace_and_remove_by_download() {
    let part = DownloadPart {
        id: PartId::new(65_537),
        download_id: DownloadId::new(1),
        index: 0,
        start_byte: Bytes::new(0),
        end_byte: Some(Bytes::new(99)),
        current_byte: Bytes::new(50),
        status: PartStatus::Receiving,
        retry_count: 2,
        updated_at: 9,
    };
    let row = part_to_row(&part).expect("offsets fit");
    assert_eq!(row.status, "receiving");
    assert_eq!(part_from_row(row.clone()), Ok(part));
    let mut bad = row;
    bad.retry_count = -3;
    assert_eq!(
        part_from_row(bad),
        Err(DbError::IntegerOutOfRange { field: "retry_count", value: -3 })
    );
}

#[test]
fn queue_should_create_default_queue_and_persist_order() {
    let queue = Queue::main_default(5);
    let row = queue_to_row(&queue);
    assert_eq!((row.max_concurrent, row.stop_on_empty), (2, 0));
    assert_eq!(queue_from_row(row.clone()), Ok(queue));
    let mut bad = row;
    bad.max_concurrent = 0;
    assert_eq!(
        queue_from_row(bad),
        Err(DbError::IntegerOutOfRange { field: "max_concurrent", value: 0 })
    );

    let entry = QueueItem { queue_id: QueueId::main(), download_id: DownloadId::new(8), position: 1 };
    assert_eq!(queue_item_from_row(queue_item_to_row(entry)), Ok(entry));
    assert!(queue_item_from_row(QueueItemRow { queue_id: 0, download_id: 8, position: -1 }).is_err());
}

#[test]
fn download_columns_should_take_the_codec_outcome() {
    let original = item();
    let row = download_to_columns(&original, Ok(Some("{}".to_owned()))).expect("counts fit");
    assert_eq!(row.headers_json.as_deref(), Some("{}"));
    assert_eq!(
        download_to_columns(&original, Err("bad".to_owned())),
        Err(DbError::Json("bad".to_owned()))
    );

    let mut headers = BTreeMap::new();
    headers.insert("Referer".to_owned(), "x".to_owned());
    let back = download_from_columns(row.clone(), Ok(headers.clone())).expect("row decodes");
    assert_eq!(back.headers, headers);
    assert_eq!(back.file_name, "a.bin");
    assert_eq!(
        download_from_columns(row, Err("broken".to_owned())),
        Err(DbError::Json("broken".to_owned()))
    );
}

#[test]
fn download_headers_should_read_back_whatever_they_hold() {
    let mut original = item();
    original.headers.insert("X-Quote".to_owned(), "say \"hi\"\\ \u{1}\n\u{e9}\u{1F600}".to_owned());
    original.headers.insert(String::new(), String::new());
    let row = download_to_row(&original).expect("counts fit");
    let back = download_from_row(row).expect("row decodes");
    assert_eq!(back.headers, original.headers);
    assert_eq!(back, original);
}
