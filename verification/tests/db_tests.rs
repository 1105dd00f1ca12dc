use raijin::db::{
    bytes_to_i64, ensure_affected, ensure_parent, i64_to_bool, i64_to_bytes, i64_to_nonzero_u16,
    next_download_id, next_queue_id, DbError,
};
use raijin::download::{Bytes, DownloadId, QueueId};

#[test]
fn integer_columns_should_convert_with_range_checks() {
    assert_eq!(bytes_to_i64("total_bytes", Bytes::new(5)), Ok(5));
    assert_eq!(
        bytes_to_i64("total_bytes", Bytes::new(u64::MAX)),
        Err(DbError::IntegerOutOfRange { field: "total_bytes", value: i128::from(u64::MAX) })
    );
    assert_eq!(i64_to_bytes("downloaded_bytes", 7), Ok(Bytes::new(7)));
    assert!(i64_to_bytes("downloaded_bytes", -1).is_err());
    assert_eq!(i64_to_nonzero_u16("max_concurrent", 2).map(|n| n.get()), Ok(2));
    assert!(i64_to_nonzero_u16("max_concurrent", 0).is_err());
    assert!(i64_to_nonzero_u16("max_concurrent", 70_000).is_err());
    assert_eq!(i64_to_bool("stop_on_empty", 1), Ok(true));
    assert_eq!(i64_to_bool("stop_on_empty", 0), Ok(false));
    assert!(i64_to_bool("stop_on_empty", 2).is_err());
}

#[test]
fn row_checks_should_report_missing_and_foreign_rows() {
    assert_eq!(ensure_affected(1, "download", 3), Ok(()));
    assert_eq!(ensure_affected(0, "download", 3), Err(DbError::NotFound { entity: "download", id: 3 }));
    assert_eq!(
        ensure_parent(2, 1, "part", 9, "download"),
        Err(DbError::ParentMismatch { child: "part", child_id: 9, parent: "download", parent_id: 1 })
    );
    assert_eq!(
        DbError::ParentMismatch { child: "part", child_id: 9, parent: "download", parent_id: 1 }.to_string(),
        "part `9` does not belong to download `1`"
    );
}

#[test]
fn next_ids_should_follow_the_largest_stored_id() {
    assert_eq!(next_download_id(None), Ok(DownloadId::new(1)));
    assert_eq!(next_download_id(Some(41)), Ok(DownloadId::new(42)));
    assert!(next_download_id(Some(i64::MAX)).is_err());
    assert_eq!(next_queue_id(None), QueueId::new(1));
    assert_eq!(next_queue_id(Some(i64::MAX)), QueueId::new(i64::MAX));
}
