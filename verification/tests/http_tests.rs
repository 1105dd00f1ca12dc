use raijin::download::http::{
    capture_probe_chunk, header_names_are_unique, is_forwarded_header, MAX_PROBE_BODY_BYTES,
};
use std::collections::BTreeMap;

use raijin::download::http::{
    parse_content_range, probe_after_full_response, probe_after_range_response, probe_start,
    validate_resume_metadata, ByteRange, ContentRange, HttpMetadata, HttpProbeError, HttpResponse, ProbeRequest,
    ProbeStep, ResumeValidation,
};
use raijin::download::{Bytes, ResumeSupport};

fn response(status: u16, headers: &[(&str, &str)]) -> HttpResponse {
    HttpResponse {
        status,
        headers: headers
            .iter()
            .map(|(name, value)| (name.to_string(), value.to_string()))
            .collect(),
        body: Vec::new(),
    }
}

fn previous() -> ResumeValidation {
    ResumeValidation {
        total_bytes: Some(Bytes::new(1024)),
        etag: Some("\"etag-1\"".to_owned()),
        resume_support: ResumeSupport::Supported,
    }
}

fn metadata(total: Option<u64>, etag: Option<&str>, resume_support: ResumeSupport) -> HttpMetadata {
    HttpMetadata {
        url: "http://localhost/file.bin".to_owned(),
        resume_support,
        total_bytes: total.map(Bytes::new),
        response_content_length: total.map(Bytes::new),
        content_range: None,
        etag: etag.map(str::to_owned),
        last_modified: None,
        content_type: None,
        status: 200,
    }
}

#[test]
fn content_range_parser_should_parse_valid_range() -> Result<(), HttpProbeError> {
    let range = parse_content_range("bytes 10-19/100")?;

    assert_eq!(range.start, Bytes::new(10));
    assert_eq!(range.end, Bytes::new(19));
    assert_eq!(range.total, Some(Bytes::new(100)));
    Ok(())
}

#[test]
fn content_range_parser_should_accept_unknown_total_and_spaces() -> Result<(), HttpProbeError> {
    let range = parse_content_range("  bytes 0-255/*  ")?;
    assert_eq!(range.start, Bytes::new(0));
    assert_eq!(range.end, Bytes::new(255));
    assert_eq!(range.total, None);
    Ok(())
}

#[test]
fn content_range_parser_should_reject_malformed_values() {
    for value in ["items 0-1/2", "bytes 5", "bytes a-1/2", "bytes 1-b/2", "bytes 1-2/x"] {
        assert!(
            matches!(parse_content_range(value), Err(HttpProbeError::InvalidContentRange(_))),
            "{value}"
        );
    }
}

#[test]
fn probe_should_start_with_first_256_bytes() {
    let request = ProbeRequest::new("http://localhost/file.bin".to_owned());
    let first = probe_start(&request);
    assert_eq!(first.url, "http://localhost/file.bin");
    assert_eq!(first.range, Some(ByteRange::new(Bytes::new(0), Bytes::new(255))));
    assert_eq!(ByteRange::new(Bytes::new(0), Bytes::new(255)).header_value(), "bytes=0-255");
}

#[test]
fn probe_should_detect_range_supported_metadata_from_partial_answer() {
    let request = ProbeRequest::new("http://localhost/file.bin".to_owned());
    let answer = response(
        206,
        &[
            ("content-range", "bytes 0-255/1024"),
            ("content-length", "256"),
            ("etag", "\"etag-1\""),
        ],
    );
    match probe_after_range_response(&request, &answer) {
        ProbeStep::Done(Ok(metadata)) => {
            assert_eq!(metadata.resume_support, ResumeSupport::Supported);
            assert_eq!(metadata.total_bytes, Some(Bytes::new(1024)));
            assert_eq!(metadata.response_content_length, Some(Bytes::new(256)));
            assert_eq!(metadata.etag.as_deref(), Some("\"etag-1\""));
            assert_eq!(metadata.content_range.map(|range| range.end), Some(Bytes::new(255)));
        }
        other => panic!("unexpected probe step {other:?}"),
    }
}

#[test]
fn probe_should_fallback_when_range_unsupported() {
    let request = ProbeRequest::new("http://localhost/file.bin".to_owned());
    let answer = response(200, &[("content-length", "1024")]);
    let next = match probe_after_range_response(&request, &answer) {
        ProbeStep::Fallback(next) => next,
        other => panic!("unexpected probe step {other:?}"),
    };
    assert_eq!(next.range, None);
    let metadata = probe_after_full_response(&request, &response(200, &[("content-length", "1024")]));
    let metadata = metadata.expect("full answer gives metadata");
    assert_eq!(metadata.resume_support, ResumeSupport::Unsupported);
    assert_eq!(metadata.total_bytes, Some(Bytes::new(1024)));
    assert_eq!(metadata.content_range, None);
}

#[test]
fn probe_should_reject_mismatched_or_missing_content_range() {
    let request = ProbeRequest::new("http://localhost/file.bin".to_owned());
    match probe_after_range_response(&request, &response(206, &[])) {
        ProbeStep::Done(Err(HttpProbeError::MissingContentRange)) => {}
        other => panic!("unexpected probe step {other:?}"),
    }
    match probe_after_range_response(&request, &response(206, &[("content-range", "bytes 5-9/10")])) {
        ProbeStep::Done(Err(HttpProbeError::ContentRangeMismatch { expected, actual })) => {
            assert_eq!(expected, "bytes=0-255");
            assert_eq!(actual, "bytes 5-9/10");
        }
        other => panic!("unexpected probe step {other:?}"),
    }
}

#[test]
fn probe_should_reject_html_mismatch() {
    let mut request = ProbeRequest::new("http://localhost/page".to_owned());
    request.file_name = Some("archive.zip".to_owned());
    let answer = response(200, &[("content-type", "text/html; charset=utf-8")]);
    let error = probe_after_full_response(&request, &answer);
    assert!(matches!(error, Err(HttpProbeError::WebpageMismatch { .. })));

    request.file_name = Some("index.HTML".to_owned());
    assert!(probe_after_full_response(&request, &answer).is_ok());
}

#[test]
fn probe_should_reject_bad_status_and_length() {
    let request = ProbeRequest::new("http://localhost/file.bin".to_owned());
    assert_eq!(
        probe_after_full_response(&request, &response(404, &[])),
        Err(HttpProbeError::UnexpectedStatus(404))
    );
    assert_eq!(
        probe_after_full_response(&request, &response(42, &[])),
        Err(HttpProbeError::InvalidStatusCode(42))
    );
    assert_eq!(
        probe_after_full_response(&request, &response(200, &[("content-length", "abc")])),
        Err(HttpProbeError::InvalidContentLength("abc".to_owned()))
    );
}

#[test]
fn validation_should_reject_changed_length() {
    let error = validate_resume_metadata(
        &previous(),
        &metadata(Some(2048), Some("\"etag-1\""), ResumeSupport::Supported),
    );
    assert!(matches!(error, Err(HttpProbeError::ContentLengthChanged { .. })));
}

#[test]
fn validation_should_reject_changed_etag() {
    let error = validate_resume_metadata(
        &previous(),
        &metadata(Some(1024), Some("\"etag-2\""), ResumeSupport::Supported),
    );
    assert!(matches!(error, Err(HttpProbeError::EtagChanged { .. })));
}

#[test]
fn validation_should_reject_disappeared_range_support() {
    let error = validate_resume_metadata(
        &previous(),
        &metadata(Some(1024), Some("\"etag-1\""), ResumeSupport::Unsupported),
    );
    assert_eq!(error, Err(HttpProbeError::RangeSupportDisappeared));
}

#[test]
fn validation_should_accept_unchanged_or_unknown_metadata() {
    assert_eq!(
        validate_resume_metadata(
            &previous(),
            &metadata(Some(1024), Some("\"etag-1\""), ResumeSupport::Supported),
        ),
        Ok(())
    );
    assert_eq!(
        validate_resume_metadata(&previous(), &metadata(None, None, ResumeSupport::Supported)),
        Ok(())
    );
}

#[test]
fn probe_errors_should_render_messages() {
    assert_eq!(HttpProbeError::UnexpectedStatus(404).to_string(), "unexpected HTTP status `404`");
    assert_eq!(
        HttpProbeError::InvalidContentLength("abc".to_owned()).to_string(),
        "invalid Content-Length `abc`"
    );
    let _unused: BTreeMap<String, String> = BTreeMap::new();
}

#[test]
fn probe_body_should_be_capped() {
    let mut body = Vec::new();
    assert!(capture_probe_chunk(&mut body, &[1u8; 1000]));
    assert_eq!(body.len(), 1000);
    assert!(!capture_probe_chunk(&mut body, &vec![2u8; 5000]));
    assert_eq!(body.len(), MAX_PROBE_BODY_BYTES);
    assert_eq!(body[999], 1);
    assert_eq!(body[1000], 2);

    let mut exact = Vec::new();
    assert!(!capture_probe_chunk(&mut exact, &vec![3u8; MAX_PROBE_BODY_BYTES]));
    assert_eq!(exact.len(), MAX_PROBE_BODY_BYTES);
}

#[test]
fn host_header_should_not_be_forwarded() {
    assert!(!is_forwarded_header("Host"));
    assert!(!is_forwarded_header("HOST"));
    assert!(is_forwarded_header("Cookie"));
    assert!(is_forwarded_header("hostname"));
}

#[test]
fn parse_content_range_reads_back_its_text() {
    let totals = [None, Some(0u64), Some(7), Some(1_000_000), Some(u64::MAX)];
    let bounds = [(0u64, 0u64), (0, 9), (5, 5), (12_345, 67_890), (u64::MAX - 1, u64::MAX)];
    for (start, end) in bounds {
        for total in totals {
            let total_text = total.map_or("*".to_owned(), |t| t.to_string());
            let text = format!("bytes {start}-{end}/{total_text}");
            let expected = ContentRange {
                start: Bytes::new(start),
                end: Bytes::new(end),
                total: total.map(Bytes::new),
            };
            assert_eq!(parse_content_range(&text), Ok(expected));
            assert_eq!(parse_content_range(&format!(" \t{text}\n ")), Ok(expected));
        }
    }
}

#[test]
fn header_names_are_unique_detects_repeated_names() {
    let pair = |n: &str, v: &str| (n.to_owned(), v.to_owned());
    assert!(header_names_are_unique(&vec![]));
    assert!(header_names_are_unique(&vec![pair("etag", "a"), pair("content-length", "3")]));
    assert!(!header_names_are_unique(&vec![pair("etag", "a"), pair("x", "1"), pair("etag", "b")]));
    let response = response(200, &[("etag", "\"v1\""), ("content-length", "10")]);
    assert!(header_names_are_unique(&response.headers));
    assert_eq!(response.header("etag"), Some("\"v1\"".to_owned()));
    assert_eq!(response.header("last-modified"), None);
}
