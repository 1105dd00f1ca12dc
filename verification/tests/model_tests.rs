use raijin::download::{
    Bytes, BytesPerSecond, DownloadId, DownloadKind, PartId, QueueId, DownloadStatus, FailureKind, NonZeroU16, NonZeroU32, PartStatus, ResumeSupport,
};

fn check_kind(variant: DownloadKind, value: &str) {
    assert_eq!(variant.as_str(), value);
    assert_eq!(variant.to_string(), value);
    assert_eq!(DownloadKind::from_str(value), Ok(variant));
    assert_eq!(DownloadKind::try_from(value), Ok(variant));
}

fn check_status(variant: DownloadStatus, value: &str) {
    assert_eq!(variant.as_str(), value);
    assert_eq!(variant.to_string(), value);
    assert_eq!(DownloadStatus::from_str(value), Ok(variant));
    assert_eq!(DownloadStatus::try_from(value), Ok(variant));
}

fn check_part_status(variant: PartStatus, value: &str) {
    assert_eq!(variant.as_str(), value);
    assert_eq!(variant.to_string(), value);
    assert_eq!(PartStatus::from_str(value), Ok(variant));
    assert_eq!(PartStatus::try_from(value), Ok(variant));
}

fn check_resume_support(variant: ResumeSupport, value: &str) {
    assert_eq!(variant.as_str(), value);
    assert_eq!(variant.to_string(), value);
    assert_eq!(ResumeSupport::from_str(value), Ok(variant));
    assert_eq!(ResumeSupport::try_from(value), Ok(variant));
}

fn check_failure_kind(variant: FailureKind, value: &str) {
    assert_eq!(variant.as_str(), value);
    assert_eq!(variant.to_string(), value);
    assert_eq!(FailureKind::from_str(value), Ok(variant));
    assert_eq!(FailureKind::try_from(value), Ok(variant));
}

#[test]
fn download_kind_should_round_trip_persisted_values() {
    check_kind(DownloadKind::Http, "http");
    check_kind(DownloadKind::Hls, "hls");
    check_kind(DownloadKind::Aria2, "aria2");
}

#[test]
fn download_status_should_round_trip_persisted_values() {
    check_status(DownloadStatus::Added, "added");
    check_status(DownloadStatus::Queued, "queued");
    check_status(DownloadStatus::Downloading, "downloading");
    check_status(DownloadStatus::Paused, "paused");
    check_status(DownloadStatus::Retrying, "retrying");
    check_status(DownloadStatus::PreparingFile, "preparing_file");
    check_status(DownloadStatus::Completed, "completed");
    check_status(DownloadStatus::Error, "error");
    check_status(DownloadStatus::Removed, "removed");
}

#[test]
fn part_status_should_round_trip_persisted_values() {
    check_part_status(PartStatus::Idle, "idle");
    check_part_status(PartStatus::Connecting, "connecting");
    check_part_status(PartStatus::Receiving, "receiving");
    check_part_status(PartStatus::Completed, "completed");
    check_part_status(PartStatus::Canceled, "canceled");
    check_part_status(PartStatus::Error, "error");
}

#[test]
fn resume_support_should_round_trip_persisted_values() {
    check_resume_support(ResumeSupport::Unknown, "unknown");
    check_resume_support(ResumeSupport::Supported, "supported");
    check_resume_support(ResumeSupport::Unsupported, "unsupported");
}

#[test]
fn failure_kind_should_round_trip_persisted_values() {
    check_failure_kind(FailureKind::Network, "network");
    check_failure_kind(FailureKind::Server, "server");
    check_failure_kind(FailureKind::Validation, "validation");
    check_failure_kind(FailureKind::Disk, "disk");
    check_failure_kind(FailureKind::Canceled, "canceled");
    check_failure_kind(FailureKind::NoSpace, "no_space");
    check_failure_kind(FailureKind::TooManyRetries, "too_many_retries");
}

#[test]
fn enum_parse_should_reject_unknown_value() {
    let error = DownloadStatus::from_str("finished").err();

    assert_eq!(
        error.map(|error| error.to_string()),
        Some("unknown DownloadStatus value `finished`".to_owned())
    );
}

#[test]
fn enum_parse_should_be_case_sensitive() {
    let error = DownloadKind::from_str("HTTP").err();
    assert_eq!(
        error.map(|error| error.to_string()),
        Some("unknown DownloadKind value `HTTP`".to_owned())
    );
    assert!(FailureKind::try_from("").is_err());
}

#[test]
fn non_zero_counts_should_reject_zero() {
    assert!(NonZeroU16::new(0).is_none());
    assert_eq!(NonZeroU16::new(7).map(|n| n.get()), Some(7));
    assert!(NonZeroU32::new(0).is_none());
    assert_eq!(NonZeroU32::new(3).map(|n| n.get()), Some(3));
}

#[test]
fn identifiers_convert_to_and_from_their_integers() {
    for value in [i64::MIN, -7, 0, 1, 42, i64::MAX] {
        assert_eq!(DownloadId::new(value).get(), value);
        assert_eq!(i64::from(DownloadId::from(value)), value);
        assert_eq!(DownloadId::from(value), DownloadId::new(value));
        assert_eq!(DownloadId::new(value).to_string(), value.to_string());
        assert_eq!(i64::from(QueueId::from(value)), value);
        assert_eq!(QueueId::from(value), QueueId::new(value));
        assert_eq!(i64::from(PartId::from(value)), value);
        assert_eq!(PartId::from(value), PartId::new(value));
    }
    for value in [0u64, 1, 4096, u64::MAX] {
        assert_eq!(u64::from(Bytes::from(value)), value);
        assert_eq!(Bytes::from(value), Bytes::new(value));
        assert_eq!(u64::from(BytesPerSecond::from(value)), value);
        assert_eq!(BytesPerSecond::from(value), BytesPerSecond::new(value));
    }
}
