use std::collections::BTreeMap;

use vstd::prelude::*;

use crate::download::model::{Bytes, ResumeSupport};
use crate::text::{
    ascii_lower, before_first, chars_of, decimal, ends_with, eq_ignore_ascii_case, find_char, is_digit,
    is_whitespace, lemma_decimal_digits, lemma_find_first_at, lemma_parse_decimal,
    lemma_trim_padded, parse_u64,
    parse_u64_spec, push_decimal, push_str, range_eq, range_eq_ignore_ascii_case, split_once,
    starts_with, str_eq, string_from_range, to_ascii_lowercase, trim, trim_bounds,
};

verus! {

/// Inclusive byte range used by HTTP requests.
#[derive(Debug, Clone, Copy, PartialEq, Eq, Structural)]
pub struct ByteRange {
    /// Inclusive start byte.
    pub start: Bytes,
    /// Inclusive end byte.
    pub end: Bytes,
}

/// The range a probe asks for: the first 256 bytes.
pub open spec fn probe_range() -> ByteRange {
    ByteRange { start: Bytes(0), end: Bytes(255) }
}

impl ByteRange {
    /// Creates an inclusive byte range.
    #[must_use]
    pub fn new(start: Bytes, end: Bytes) -> (r: Self)
        ensures
            r.start == start,
            r.end == end,
    {
        ByteRange { start, end }
    }

    /// The `Range` header text for this range: `bytes={start}-{end}`.
    pub open spec fn header_text(self) -> Seq<char> {
        "bytes="@ + decimal(self.start@ as nat) + "-"@ + decimal(self.end@ as nat)
    }

    /// The `Range` header value for this range.
    pub fn header_value(self) -> (r: String)
        ensures
            r@ == self.header_text(),
    {
        let mut r = String::new();
        push_str(&mut r, "bytes=");
        push_decimal(&mut r, self.start.get());
        push_str(&mut r, "-");
        push_decimal(&mut r, self.end.get());
        r
    }
}

/// Request sent through the HTTP client abstraction.
#[derive(Debug, Clone, PartialEq, Eq)]
pub struct HttpRequest {
    /// Request URL.
    pub url: String,
    /// Extra request headers.
    pub headers: BTreeMap<String, String>,
    /// Optional range request.
    pub range: Option<ByteRange>,
}

/// Response returned by the HTTP client abstraction.
#[derive(Debug, Clone, PartialEq, Eq)]
pub struct HttpResponse {
    /// Numeric HTTP status code.
    pub status: u16,
    /// Response headers as `(lowercase name, value)` pairs, each name once
    /// (`header_names_unique`).
    pub headers: Vec<(String, String)>,
    /// Response body bytes captured for metadata checks.
    pub body: Vec<u8>,
}

/// Value of the first header named `name`.
pub open spec fn find_header(headers: Seq<(String, String)>, name: Seq<char>) -> Option<String>
    decreases headers.len(),
{
    if headers.len() == 0 {
        None
    } else if headers[0].0@ == name {
        Some(headers[0].1)
    } else {
        find_header(headers.drop_first(), name)
    }
}

/// No two headers share a name: the pairs are a map from names to values.
pub open spec fn header_names_unique(headers: Seq<(String, String)>) -> bool {
    forall|i: int, j: int|
        0 <= i < j < headers.len() ==> #[trigger] headers[i].0@ != #[trigger] headers[j].0@
}

/// Among headers with unique names, looking a name up gives the value stored under it,
/// and nothing for a name that is not stored.
pub proof fn lemma_find_header_unique(headers: Seq<(String, String)>, name: Seq<char>)
    requires
        header_names_unique(headers),
    ensures
        forall|i: int| 0 <= i < headers.len() && #[trigger] headers[i].0@ == name ==> find_header(
            headers,
            name,
        ) == Some(headers[i].1),
        (forall|i: int| 0 <= i < headers.len() ==> #[trigger] headers[i].0@ != name) ==> find_header(
            headers,
            name,
        ) is None,
    decreases headers.len(),
{
    if headers.len() > 0 {
        let rest = headers.drop_first();
        assert forall|i: int, j: int| 0 <= i < j < rest.len() implies #[trigger] rest[i].0@
            != #[trigger] rest[j].0@ by {
            assert(rest[i] == headers[i + 1]);
            assert(rest[j] == headers[j + 1]);
        }
        lemma_find_header_unique(rest, name);
        assert forall|i: int| 0 <= i < headers.len() && #[trigger] headers[i].0@ == name implies find_header(
            headers,
            name,
        ) == Some(headers[i].1) by {
            if i > 0 {
                assert(headers[0].0@ != headers[i].0@);
                assert(rest[i - 1] == headers[i]);
            }
        }
        if forall|i: int| 0 <= i < headers.len() ==> #[trigger] headers[i].0@ != name {
            assert forall|i: int| 0 <= i < rest.len() implies #[trigger] rest[i].0@ != name by {
                assert(rest[i] == headers[i + 1]);
            }
            assert(headers[0].0@ != name);
        }
    }
}

/// Whether no two headers share a name.
pub fn header_names_are_unique(headers: &Vec<(String, String)>) -> (r: bool)
    ensures
        r == header_names_unique(headers@),
{
    let n = headers.len();
    let mut j: usize = 0;
    while j < n
        invariant
            j <= n,
            n == headers@.len(),
            forall|a: int, b: int|
                0 <= a < b < j ==> #[trigger] headers@[a].0@ != #[trigger] headers@[b].0@,
        decreases n - j,
    {
        let mut i: usize = 0;
        while i < j
            invariant
                i <= j,
                j < n,
                n == headers@.len(),
                forall|a: int, b: int|
                    0 <= a < b < j ==> #[trigger] headers@[a].0@ != #[trigger] headers@[b].0@,
                forall|a: int| 0 <= a < i ==> #[trigger] headers@[a].0@ != headers@[j as int].0@,
            decreases j - i,
        {
            if str_eq(headers[i].0.as_str(), headers[j].0.as_str()) {
                assert(headers@[i as int].0@ == headers@[j as int].0@);
                return false;
            }
            i = i + 1;
        }
        j = j + 1;
    }
    true
}

/// A number the HTTP status type accepts: three digits, 100 to 999.
pub open spec fn is_valid_status(status: u16) -> bool {
    100 <= status <= 999
}

/// A 2xx status.
pub open spec fn is_success_status(status: u16) -> bool {
    200 <= status <= 299
}

/// Statuses after which a ranged probe is retried without a range: 200, 400, 405, 416
/// and 501.
pub open spec fn is_fallback_status(status: u16) -> bool {
    status == 200 || status == 416 || status == 400 || status == 405 || status == 501
}

impl HttpResponse {
    fn status_code(&self) -> (r: Result<u16, HttpProbeError>)
        ensures
            r == (if is_valid_status(self.status) {
                Ok::<u16, HttpProbeError>(self.status)
            } else {
                Err(HttpProbeError::InvalidStatusCode(self.status))
            }),
    {
        if 100 <= self.status && self.status <= 999 {
            Ok(self.status)
        } else {
            Err(HttpProbeError::InvalidStatusCode(self.status))
        }
    }

    /// Value of the first header named `name`.
    pub fn header(&self, name: &str) -> (r: Option<String>)
        ensures
            r == find_header(self.headers@, name@),
    {
        let mut i: usize = 0;
        assert(self.headers@.skip(0) == self.headers@);
        while i < self.headers.len()
            invariant
                i <= self.headers@.len(),
                find_header(self.headers@, name@) == find_header(self.headers@.skip(i as int), name@),
            decreases self.headers.len() - i,
        {
            let ghost rest = self.headers@.skip(i as int);
            assert(rest[0] == self.headers@[i as int]);
            assert(rest.drop_first() == self.headers@.skip(i + 1));
            if str_eq(self.headers[i].0.as_str(), name) {
                return Some(self.headers[i].1.clone());
            }
            i = i + 1;
        }
        None
    }
}

/// Request for metadata probing.
#[derive(Debug, Clone, PartialEq, Eq)]
pub struct ProbeRequest {
    /// Request URL.
    pub url: String,
    /// Extra request headers.
    pub headers: BTreeMap<String, String>,
    /// Expected target file name, used to detect accidental HTML pages.
    pub file_name: Option<String>,
}

impl ProbeRequest {
    /// Creates a probe request with no extra headers.
    #[must_use]
    pub fn new(url: String) -> (r: Self)
        ensures
            r.url == url,
            r.headers@ == Map::<String, String>::empty(),
            r.file_name is None,
    {
        ProbeRequest { url, headers: BTreeMap::new(), file_name: None }
    }
}

/// Expected persisted metadata used for resume validation.
#[derive(Debug, Clone, PartialEq, Eq)]
pub struct ResumeValidation {
    /// Previously persisted total size.
    pub total_bytes: Option<Bytes>,
    /// Previously persisted ETag.
    pub etag: Option<String>,
    /// Previously known resume support.
    pub resume_support: ResumeSupport,
}

/// Parsed HTTP Content-Range header.
#[derive(Debug, Clone, Copy, PartialEq, Eq, Structural)]
pub struct ContentRange {
    /// Inclusive start byte.
    pub start: Bytes,
    /// Inclusive end byte.
    pub end: Bytes,
    /// Total resource size, if provided.
    pub total: Option<Bytes>,
}

/// Remote HTTP metadata collected by probe.
#[derive(Debug, Clone, PartialEq, Eq)]
pub struct HttpMetadata {
    /// Final probed URL.
    pub url: String,
    /// Resume capability detected by probe.
    pub resume_support: ResumeSupport,
    /// Total resource size, if known.
    pub total_bytes: Option<Bytes>,
    /// Content length of the response that supplied metadata.
    pub response_content_length: Option<Bytes>,
    /// Parsed Content-Range value for ranged responses.
    pub content_range: Option<ContentRange>,
    /// Entity tag header.
    pub etag: Option<String>,
    /// Last-Modified header.
    pub last_modified: Option<String>,
    /// Content-Type header.
    pub content_type: Option<String>,
    /// HTTP status code used for metadata.
    pub status: u16,
}

/// HTTP probe and validation errors.
#[allow(inconsistent_fields)]
#[derive(Debug, Clone, PartialEq, Eq)]
pub enum HttpProbeError {
    /// The HTTP client failed to build or execute a request; holds its message.
    Request(String),
    /// Header name was invalid.
    InvalidHeaderName(String),
    /// Header value was invalid.
    InvalidHeaderValue(String),
    /// HTTP status code was not valid.
    InvalidStatusCode(u16),
    /// Server returned a status that cannot be used for download metadata.
    UnexpectedStatus(u16),
    /// Content-Length header could not be parsed.
    InvalidContentLength(String),
    /// Content-Range header could not be parsed.
    InvalidContentRange(String),
    /// Content-Range header was required but missing.
    MissingContentRange,
    /// Content-Range did not match the requested probe range.
    ContentRangeMismatch { expected: String, actual: String },
    /// Persisted content length no longer matches remote metadata.
    ContentLengthChanged { expected: Bytes, actual: Bytes },
    /// Persisted ETag no longer matches remote metadata.
    EtagChanged { expected: String, actual: String },
    /// Server previously supported ranges but no longer does.
    RangeSupportDisappeared,
    /// Response appears to be an HTML page instead of the expected file.
    WebpageMismatch { file_name: String },
}

/// What validating remote metadata against persisted resume state gives.
pub open spec fn resume_validation(previous: ResumeValidation, metadata: HttpMetadata) -> Result<
    (),
    HttpProbeError,
> {
    if previous.total_bytes is Some && metadata.total_bytes is Some && previous.total_bytes->0
        != metadata.total_bytes->0 {
        Err(
            HttpProbeError::ContentLengthChanged {
                expected: previous.total_bytes->0,
                actual: metadata.total_bytes->0,
            },
        )
    } else if previous.etag is Some && metadata.etag is Some && previous.etag->0@
        != metadata.etag->0@ {
        Err(HttpProbeError::EtagChanged { expected: previous.etag->0, actual: metadata.etag->0 })
    } else if previous.resume_support == ResumeSupport::Supported && metadata.resume_support
        != ResumeSupport::Supported {
        Err(HttpProbeError::RangeSupportDisappeared)
    } else {
        Ok(())
    }
}

/// Resuming is allowed exactly when the remote file is unchanged as far as both sides
/// know: totals equal when both are known, entity tags equal when both are known, and
/// range support still there if it was. A known total that differs, larger or smaller,
/// is always refused as a changed content length carrying both totals.
pub proof fn lemma_resume_accepts_only_unchanged(previous: ResumeValidation, metadata: HttpMetadata)
    ensures
        resume_validation(previous, metadata) is Ok <==> {
            &&& previous.total_bytes is Some && metadata.total_bytes is Some
                ==> previous.total_bytes->0@ == metadata.total_bytes->0@
            &&& previous.etag is Some && metadata.etag is Some ==> previous.etag->0@
                == metadata.etag->0@
            &&& previous.resume_support == ResumeSupport::Supported ==> metadata.resume_support
                == ResumeSupport::Supported
        },
        previous.total_bytes is Some && metadata.total_bytes is Some && previous.total_bytes->0@
            != metadata.total_bytes->0@ ==> resume_validation(previous, metadata) == Err::<
            (),
            HttpProbeError,
        >(
            HttpProbeError::ContentLengthChanged {
                expected: previous.total_bytes->0,
                actual: metadata.total_bytes->0,
            },
        ),
{
}

/// Validates remote metadata against previously persisted resume state.
pub fn validate_resume_metadata(previous: &ResumeValidation, metadata: &HttpMetadata) -> (r: Result<
    (),
    HttpProbeError,
>)
    ensures
        r == resume_validation(*previous, *metadata),
{
    match (previous.total_bytes, metadata.total_bytes) {
        (Some(expected), Some(actual)) => {
            if expected.get() != actual.get() {
                return Err(HttpProbeError::ContentLengthChanged { expected, actual });
            }
        },
        _ => {},
    }
    match (&previous.etag, &metadata.etag) {
        (Some(expected), Some(actual)) => {
            if !str_eq(expected.as_str(), actual.as_str()) {
                return Err(
                    HttpProbeError::EtagChanged {
                        expected: expected.clone(),
                        actual: actual.clone(),
                    },
                );
            }
        },
        _ => {},
    }
    if previous.resume_support == ResumeSupport::Supported && metadata.resume_support
        != ResumeSupport::Supported {
        return Err(HttpProbeError::RangeSupportDisappeared);
    }
    Ok(())
}

/// What parsing an optional Content-Length header value gives.
pub open spec fn content_length_of(value: Option<String>) -> Result<Option<Bytes>, HttpProbeError> {
    match value {
        None => Ok(None),
        Some(v) => match parse_u64_spec(trim(v@)) {
            Some(n) => Ok(Some(Bytes(n))),
            None => Err(HttpProbeError::InvalidContentLength(v)),
        },
    }
}

fn parse_optional_content_length(value: &Option<String>) -> (r: Result<Option<Bytes>, HttpProbeError>)
    ensures
        r == content_length_of(*value),
{
    match value {
        None => Ok(None),
        Some(v) => {
            let chars = chars_of(v.as_str());
            let (lo, hi) = trim_bounds(&chars, 0, chars.len());
            assert(chars@.subrange(0, chars@.len() as int) == v@);
            match parse_u64(&chars, lo, hi) {
                Some(n) => Ok(Some(Bytes::new(n))),
                None => Err(HttpProbeError::InvalidContentLength(v.clone())),
            }
        },
    }
}

/// The Content-Range a header value describes, if it is well formed:
/// `bytes {start}-{end}/{total}` after trimming, with `end >= start` and a total that is
/// a number or `*`.
pub open spec fn content_range_of(value: Seq<char>) -> Option<ContentRange> {
    let t = trim(value);
    if !starts_with(t, "bytes "@) {
        None
    } else {
        range_body_of(t.skip(6))
    }
}

/// The Content-Range described by the text after `bytes `.
pub open spec fn range_body_of(rest: Seq<char>) -> Option<ContentRange> {
    match split_once(rest, '/') {
        None => None,
        Some((byte_range, total)) => match split_once(byte_range, '-') {
            None => None,
            Some((start, end)) => range_bounds_of(start, end, total),
        },
    }
}

/// The Content-Range with the given start, end and total texts.
pub open spec fn range_bounds_of(start: Seq<char>, end: Seq<char>, total: Seq<char>) -> Option<
    ContentRange,
> {
    match (parse_u64_spec(start), parse_u64_spec(end)) {
        (Some(a), Some(b)) => if b < a {
            None
        } else if total == "*"@ {
            Some(ContentRange { start: Bytes(a), end: Bytes(b), total: None })
        } else {
            match parse_u64_spec(total) {
                Some(n) => Some(ContentRange { start: Bytes(a), end: Bytes(b), total: Some(Bytes(n)) }),
                None => None,
            }
        },
        _ => None,
    }
}

fn parse_range_bounds(v: &Vec<char>, a: usize, dash: usize, slash: usize, hi: usize) -> (r: Option<
    ContentRange,
>)
    requires
        a <= dash < slash < hi <= v.len(),
    ensures
        r == range_bounds_of(
            v@.subrange(a as int, dash as int),
            v@.subrange(dash + 1, slash as int),
            v@.subrange(slash + 1, hi as int),
        ),
{
    let start = match parse_u64(v, a, dash) {
        Some(n) => n,
        None => return None,
    };
    let end = match parse_u64(v, dash + 1, slash) {
        Some(n) => n,
        None => return None,
    };
    if end < start {
        return None;
    }
    let ghost total = v@.subrange(slash + 1, hi as int);
    proof {
        reveal_strlit("*");
    }
    if hi - (slash + 1) == 1 && v[slash + 1] == '*' {
        assert(total == "*"@);
        return Some(ContentRange { start: Bytes::new(start), end: Bytes::new(end), total: None });
    }
    proof {
        if total == "*"@ {
            assert(total[0] == v@[slash + 1]);
        }
    }
    match parse_u64(v, slash + 1, hi) {
        Some(n) => Some(
            ContentRange { start: Bytes::new(start), end: Bytes::new(end), total: Some(Bytes::new(n)) },
        ),
        None => None,
    }
}

fn parse_range_body(v: &Vec<char>, a: usize, hi: usize) -> (r: Option<ContentRange>)
    requires
        a <= hi <= v.len(),
    ensures
        r == range_body_of(v@.subrange(a as int, hi as int)),
{
    let ghost rest = v@.subrange(a as int, hi as int);
    let slash = match find_char(v, a, hi, '/') {
        Some(i) => i,
        None => return None,
    };
    let ghost byte_range = rest.take(slash - a);
    assert(byte_range == v@.subrange(a as int, slash as int));
    assert(rest.skip(slash - a + 1) == v@.subrange(slash + 1, hi as int));
    let dash = match find_char(v, a, slash, '-') {
        Some(i) => i,
        None => return None,
    };
    assert(byte_range.take(dash - a) == v@.subrange(a as int, dash as int));
    assert(byte_range.skip(dash - a + 1) == v@.subrange(dash + 1, slash as int));
    parse_range_bounds(v, a, dash, slash, hi)
}

fn parse_content_range_chars(v: &Vec<char>, lo: usize, hi: usize) -> (r: Option<ContentRange>)
    requires
        lo <= hi <= v.len(),
    ensures
        r == (if starts_with(v@.subrange(lo as int, hi as int), "bytes "@) {
            range_body_of(v@.subrange(lo as int, hi as int).skip(6))
        } else {
            None
        }),
{
    let ghost t = v@.subrange(lo as int, hi as int);
    let prefix = chars_of("bytes ");
    proof {
        reveal_strlit("bytes ");
    }
    if hi - lo < 6 {
        return None;
    }
    assert(t.take(6) == v@.subrange(lo as int, lo + 6));
    if !range_eq(v, lo, lo + 6, &prefix) {
        return None;
    }
    assert(t.skip(6) == v@.subrange(lo + 6, hi as int));
    parse_range_body(v, lo + 6, hi)
}

/// Parses a Content-Range header value.
pub fn parse_content_range(value: &str) -> (r: Result<ContentRange, HttpProbeError>)
    ensures
        match r {
            Ok(cr) => content_range_of(value@) == Some(cr),
            Err(e) => {
                &&& content_range_of(value@) is None
                &&& e matches HttpProbeError::InvalidContentRange(t) && t@ == trim(value@)
            },
        },
{
    let v = chars_of(value);
    assert(v@.subrange(0, v@.len() as int) == value@);
    let (lo, hi) = trim_bounds(&v, 0, v.len());
    match parse_content_range_chars(&v, lo, hi) {
        Some(cr) => Ok(cr),
        None => Err(HttpProbeError::InvalidContentRange(string_from_range(&v, lo, hi))),
    }
}

/// Text of a Content-Range header value: `bytes {start}-{end}/{total}`, with `*` for an
/// unknown total.
pub open spec fn content_range_text(start: u64, end: u64, total: Option<u64>) -> Seq<char> {
    "bytes "@ + decimal(start as nat) + "-"@ + decimal(end as nat) + "/"@ + match total {
        Some(t) => decimal(t as nat),
        None => "*"@,
    }
}

/// Reading a Content-Range value back: the text of a range whose start is not past its
/// end, with any whitespace around it, describes exactly that range. The total is taken
/// as it stands, without a check against the end.
pub proof fn lemma_content_range_read_back(
    start: u64,
    end: u64,
    total: Option<u64>,
    leading: Seq<char>,
    trailing: Seq<char>,
)
    requires
        start <= end,
        forall|j: int| 0 <= j < leading.len() ==> #[trigger] is_whitespace(leading[j]),
        forall|j: int| 0 <= j < trailing.len() ==> #[trigger] is_whitespace(trailing[j]),
    ensures
        content_range_of(leading + content_range_text(start, end, total) + trailing) == Some(
            ContentRange {
                start: Bytes(start),
                end: Bytes(end),
                total: match total {
                    Some(t) => Some(Bytes(t)),
                    None => None,
                },
            },
        ),
{
    reveal_strlit("bytes ");
    reveal_strlit("-");
    reveal_strlit("/");
    reveal_strlit("*");
    let ds = decimal(start as nat);
    let de = decimal(end as nat);
    let tt = match total {
        Some(t) => decimal(t as nat),
        None => "*"@,
    };
    lemma_decimal_digits(start as nat);
    lemma_decimal_digits(end as nat);
    lemma_parse_decimal(start);
    lemma_parse_decimal(end);
    if let Some(t) = total {
        lemma_decimal_digits(t as nat);
        lemma_parse_decimal(t);
        assert(is_digit(tt[0]));
        assert(tt != "*"@) by {
            assert(tt[0] != "*"@[0]);
        }
    }
    let byte_range = ds + "-"@ + de;
    let rest = byte_range + "/"@ + tt;
    let core = content_range_text(start, end, total);
    assert(core =~= "bytes "@ + rest);
    assert(core[0] == 'b');
    assert(core.last() == tt.last());
    lemma_trim_padded(leading, core, trailing);
    assert(starts_with(core, "bytes "@)) by {
        assert(core.take(6) =~= "bytes "@);
    }
    assert(core.skip(6) =~= rest);
    let slash = byte_range.len() as int;
    assert forall|j: int| 0 <= j < slash implies rest[j] != '/' by {
        if j < ds.len() {
            assert(rest[j] == ds[j]);
            assert(is_digit(ds[j]));
        } else if j > ds.len() {
            assert(rest[j] == de[j - ds.len() - 1]);
            assert(is_digit(de[j - ds.len() - 1]));
        } else {
            assert(rest[j] == '-');
        }
    }
    assert(rest[slash] == '/');
    lemma_find_first_at(rest, '/', slash);
    assert(rest.take(slash) =~= byte_range);
    assert(rest.skip(slash + 1) =~= tt);
    let dash = ds.len() as int;
    assert forall|j: int| 0 <= j < dash implies byte_range[j] != '-' by {
        assert(byte_range[j] == ds[j]);
        assert(is_digit(ds[j]));
    }
    assert(byte_range[dash] == '-');
    lemma_find_first_at(byte_range, '-', dash);
    assert(byte_range.take(dash) =~= ds);
    assert(byte_range.skip(dash + 1) =~= de);
}

/// Whether a Content-Type value names an HTML page: its media type, before any `;`
/// and trimmed, is `text/html` in any ASCII case.
pub open spec fn is_html_content_type_spec(content_type: Seq<char>) -> bool {
    eq_ignore_ascii_case(trim(before_first(content_type, ';')), "text/html"@)
}

/// Whether a file name ends with `.html` or `.htm` in any ASCII case.
pub open spec fn is_html_file_name_spec(file_name: Seq<char>) -> bool {
    ends_with(to_ascii_lowercase(file_name), ".html"@) || ends_with(
        to_ascii_lowercase(file_name),
        ".htm"@,
    )
}

fn is_html_content_type(content_type: &str) -> (r: bool)
    ensures
        r == is_html_content_type_spec(content_type@),
{
    let v = chars_of(content_type);
    assert(v@.subrange(0, v@.len() as int) == content_type@);
    let end = match find_char(&v, 0, v.len(), ';') {
        Some(i) => {
            assert(before_first(content_type@, ';') == v@.subrange(0, i as int));
            i
        },
        None => v.len(),
    };
    assert(before_first(content_type@, ';') == v@.subrange(0, end as int));
    let (lo, hi) = trim_bounds(&v, 0, end);
    let html = chars_of("text/html");
    range_eq_ignore_ascii_case(&v, lo, hi, &html)
}

fn ends_with_lower(v: &Vec<char>, suffix: &Vec<char>) -> (r: bool)
    ensures
        r == ends_with(to_ascii_lowercase(v@), suffix@),
{
    if suffix.len() > v.len() {
        return false;
    }
    let start = v.len() - suffix.len();
    let mut i: usize = 0;
    let ghost lower = to_ascii_lowercase(v@);
    while i < suffix.len()
        invariant
            start + suffix.len() == v.len(),
            lower == to_ascii_lowercase(v@),
            i <= suffix.len(),
            forall|j: int| 0 <= j < i ==> lower[start + j] == suffix@[j],
        decreases suffix.len() - i,
    {
        if crate::text::char_ascii_lower(v[start + i]) != suffix[i] {
            assert(lower.skip(start as int)[i as int] != suffix@[i as int]);
            return false;
        }
        i = i + 1;
    }
    assert(lower.skip(start as int) == suffix@);
    true
}

fn is_html_file_name(file_name: &str) -> (r: bool)
    ensures
        r == is_html_file_name_spec(file_name@),
{
    let v = chars_of(file_name);
    let html = chars_of(".html");
    let htm = chars_of(".htm");
    ends_with_lower(&v, &html) || ends_with_lower(&v, &htm)
}

/// `name` ends with `suffix` when ASCII case is ignored (`suffix` in lowercase).
pub open spec fn ends_with_ignoring_case(name: Seq<char>, suffix: Seq<char>) -> bool {
    &&& suffix.len() <= name.len()
    &&& forall|i: int|
        0 <= i < suffix.len() ==> #[trigger] ascii_lower(name[name.len() - suffix.len() + i])
            == suffix[i]
}

proof fn lemma_ends_with_lower(name: Seq<char>, suffix: Seq<char>)
    ensures
        ends_with(to_ascii_lowercase(name), suffix) <==> ends_with_ignoring_case(name, suffix),
{
    let lower = to_ascii_lowercase(name);
    if suffix.len() <= name.len() {
        let tail = lower.skip(lower.len() - suffix.len());
        assert forall|i: int| 0 <= i < suffix.len() implies tail[i] == ascii_lower(
            name[name.len() - suffix.len() + i],
        ) by {}
        if ends_with_ignoring_case(name, suffix) {
            assert(tail =~= suffix);
        }
        if ends_with(lower, suffix) {
            assert forall|i: int| 0 <= i < suffix.len() implies #[trigger] ascii_lower(
                name[name.len() - suffix.len() + i],
            ) == suffix[i] by {
                assert(tail[i] == suffix[i]);
            }
        }
    }
}

/// An expected file name ending in `.html` or `.htm`, in any ASCII case, is an HTML file,
/// so the webpage check never refuses it, whatever the server sent. Any other expected
/// name is refused exactly when the response is served as `text/html`.
pub proof fn lemma_webpage_check_html_names(metadata: HttpMetadata, file_name: String)
    ensures
        ends_with_ignoring_case(file_name@, ".html"@) || ends_with_ignoring_case(file_name@, ".htm"@)
            ==> webpage_check(metadata, Some(file_name)) == Ok::<(), HttpProbeError>(()),
        !ends_with_ignoring_case(file_name@, ".html"@) && !ends_with_ignoring_case(
            file_name@,
            ".htm"@,
        ) ==> webpage_check(metadata, Some(file_name)) == if metadata.content_type is Some
            && is_html_content_type_spec(metadata.content_type->0@) {
            Err::<(), HttpProbeError>(HttpProbeError::WebpageMismatch { file_name })
        } else {
            Ok::<(), HttpProbeError>(())
        },
{
    lemma_ends_with_lower(file_name@, ".html"@);
    lemma_ends_with_lower(file_name@, ".htm"@);
}

/// What checking metadata against the expected file name gives: a page served as
/// `text/html` is refused unless the expected name is itself an HTML file name.
pub open spec fn webpage_check(metadata: HttpMetadata, file_name: Option<String>) -> Result<
    (),
    HttpProbeError,
> {
    match file_name {
        None => Ok(()),
        Some(f) => if is_html_file_name_spec(f@) {
            Ok(())
        } else if metadata.content_type is Some && is_html_content_type_spec(
            metadata.content_type->0@,
        ) {
            Err(HttpProbeError::WebpageMismatch { file_name: f })
        } else {
            Ok(())
        },
    }
}

fn validate_webpage_mismatch(metadata: &HttpMetadata, file_name: &Option<String>) -> (r: Result<
    (),
    HttpProbeError,
>)
    ensures
        r == webpage_check(*metadata, *file_name),
{
    let file_name = match file_name {
        None => return Ok(()),
        Some(f) => f,
    };
    if is_html_file_name(file_name.as_str()) {
        return Ok(());
    }
    match &metadata.content_type {
        Some(ct) => {
            if is_html_content_type(ct.as_str()) {
                return Err(HttpProbeError::WebpageMismatch { file_name: file_name.clone() });
            }
        },
        None => {},
    }
    Ok(())
}

/// A Content-Range answers a request when it starts at the requested byte and does not
/// end before it starts.
pub open spec fn range_answers(requested: ByteRange, content_range: ContentRange) -> bool {
    content_range.start == requested.start && content_range.end@ >= content_range.start@
}

fn validate_content_range(
    requested_range: ByteRange,
    content_range: ContentRange,
    actual_header: &String,
) -> (r: Result<(), HttpProbeError>)
    ensures
        match r {
            Ok(()) => range_answers(requested_range, content_range),
            Err(e) => {
                &&& !range_answers(requested_range, content_range)
                &&& e matches HttpProbeError::ContentRangeMismatch { expected, actual }
                    && expected@ == requested_range.header_text() && actual == *actual_header
            },
        },
{
    if content_range.start.get() != requested_range.start.get() || content_range.end.get()
        < content_range.start.get() {
        return Err(
            HttpProbeError::ContentRangeMismatch {
                expected: requested_range.header_value(),
                actual: actual_header.clone(),
            },
        );
    }
    Ok(())
}

/// What a 206 response to `requested` says of the resource, or why it cannot be used.
pub open spec fn range_metadata_holds(
    r: Result<HttpMetadata, HttpProbeError>,
    url: String,
    requested: ByteRange,
    response: HttpResponse,
) -> bool {
    let h = response.headers@;
    match find_header(h, "content-range"@) {
        None => r == Err::<HttpMetadata, HttpProbeError>(HttpProbeError::MissingContentRange),
        Some(header) => match content_range_of(header@) {
            None => r matches Err(HttpProbeError::InvalidContentRange(t)) && t@ == trim(header@),
            Some(cr) => if !range_answers(requested, cr) {
                r matches Err(HttpProbeError::ContentRangeMismatch { expected, actual })
                    && expected@ == requested.header_text() && actual == header
            } else {
                match content_length_of(find_header(h, "content-length"@)) {
                    Err(e) => r == Err::<HttpMetadata, HttpProbeError>(e),
                    Ok(length) => r == Ok::<HttpMetadata, HttpProbeError>(
                        HttpMetadata {
                            url,
                            resume_support: ResumeSupport::Supported,
                            total_bytes: cr.total,
                            response_content_length: length,
                            content_range: Some(cr),
                            etag: find_header(h, "etag"@),
                            last_modified: find_header(h, "last-modified"@),
                            content_type: find_header(h, "content-type"@),
                            status: response.status,
                        },
                    ),
                }
            },
        },
    }
}

fn metadata_from_range_response(
    url: &String,
    requested_range: ByteRange,
    response: &HttpResponse,
) -> (r: Result<HttpMetadata, HttpProbeError>)
    ensures
        range_metadata_holds(r, *url, requested_range, *response),
{
    let content_range_header = match response.header("content-range") {
        Some(h) => h,
        None => return Err(HttpProbeError::MissingContentRange),
    };
    let content_range = match parse_content_range(content_range_header.as_str()) {
        Ok(cr) => cr,
        Err(e) => return Err(e),
    };
    match validate_content_range(requested_range, content_range, &content_range_header) {
        Ok(()) => {},
        Err(e) => return Err(e),
    }
    let response_content_length = match parse_optional_content_length(
        &response.header("content-length"),
    ) {
        Ok(l) => l,
        Err(e) => return Err(e),
    };
    Ok(
        HttpMetadata {
            url: url.clone(),
            resume_support: ResumeSupport::Supported,
            total_bytes: content_range.total,
            response_content_length,
            content_range: Some(content_range),
            etag: response.header("etag"),
            last_modified: response.header("last-modified"),
            content_type: response.header("content-type"),
            status: response.status,
        },
    )
}

/// What a full (non-ranged) response says of the resource, or why it cannot be used.
pub open spec fn full_metadata(url: String, response: HttpResponse) -> Result<HttpMetadata, HttpProbeError> {
    let h = response.headers@;
    if !is_valid_status(response.status) {
        Err(HttpProbeError::InvalidStatusCode(response.status))
    } else if !is_success_status(response.status) {
        Err(HttpProbeError::UnexpectedStatus(response.status))
    } else {
        match content_length_of(find_header(h, "content-length"@)) {
            Err(e) => Err(e),
            Ok(length) => Ok(
                HttpMetadata {
                    url,
                    resume_support: ResumeSupport::Unsupported,
                    total_bytes: length,
                    response_content_length: length,
                    content_range: None,
                    etag: find_header(h, "etag"@),
                    last_modified: find_header(h, "last-modified"@),
                    content_type: find_header(h, "content-type"@),
                    status: response.status,
                },
            ),
        }
    }
}

fn metadata_from_full_response(url: &String, response: &HttpResponse) -> (r: Result<
    HttpMetadata,
    HttpProbeError,
>)
    ensures
        r == full_metadata(*url, *response),
{
    let status = match response.status_code() {
        Ok(s) => s,
        Err(e) => return Err(e),
    };
    if !(200 <= status && status <= 299) {
        return Err(HttpProbeError::UnexpectedStatus(response.status));
    }
    let content_length = match parse_optional_content_length(&response.header("content-length")) {
        Ok(l) => l,
        Err(e) => return Err(e),
    };
    Ok(
        HttpMetadata {
            url: url.clone(),
            resume_support: ResumeSupport::Unsupported,
            total_bytes: content_length,
            response_content_length: content_length,
            content_range: None,
            etag: response.header("etag"),
            last_modified: response.header("last-modified"),
            content_type: response.header("content-type"),
            status: response.status,
        },
    )
}

/// Metadata followed by the file-name check.
pub open spec fn checked(metadata: Result<HttpMetadata, HttpProbeError>, file_name: Option<String>) -> Result<
    HttpMetadata,
    HttpProbeError,
> {
    match metadata {
        Err(e) => Err(e),
        Ok(m) => match webpage_check(m, file_name) {
            Ok(()) => Ok(m),
            Err(e) => Err(e),
        },
    }
}

/// The next step of a metadata probe.
#[derive(Debug)]
pub enum ProbeStep {
    /// The probe is over, with this outcome.
    Done(Result<HttpMetadata, HttpProbeError>),
    /// The server did not answer the ranged request; this unranged request is next.
    Fallback(HttpRequest),
}

/// The first request of a metadata probe: the first 256 bytes of the URL.
pub fn probe_start(request: &ProbeRequest) -> (r: HttpRequest)
    ensures
        r.url == request.url,
        r.headers@ == request.headers@,
        r.range == Some(probe_range()),
{
    HttpRequest {
        url: request.url.clone(),
        headers: request.headers.clone(),
        range: Some(ByteRange::new(Bytes::new(0), Bytes::new(255))),
    }
}

/// Decides what follows the answer to the ranged probe request: a 206 answer gives the
/// metadata of a resumable resource, a 200, 400, 405, 416 or 501 answer calls for an
/// unranged request, and any other answer is read as a full response.
pub fn probe_after_range_response(request: &ProbeRequest, response: &HttpResponse) -> (r: ProbeStep)
    requires
        header_names_unique(response.headers@),
    ensures
        !is_valid_status(response.status) ==> r == ProbeStep::Done(
            Err(HttpProbeError::InvalidStatusCode(response.status)),
        ),
        is_valid_status(response.status) && response.status == 206 ==> (r matches ProbeStep::Done(
            outcome,
        ) && exists|m: Result<HttpMetadata, HttpProbeError>|
            range_metadata_holds(m, request.url, probe_range(), *response) && outcome == checked(
                m,
                request.file_name,
            )),
        is_valid_status(response.status) && response.status != 206 && is_fallback_status(
            response.status,
        ) ==> (r matches ProbeStep::Fallback(next) && next.url == request.url && next.headers@
            == request.headers@ && next.range is None),
        is_valid_status(response.status) && response.status != 206 && !is_fallback_status(
            response.status,
        ) ==> r == ProbeStep::Done(checked(full_metadata(request.url, *response), request.file_name)),
{
    let status = match response.status_code() {
        Ok(s) => s,
        Err(e) => return ProbeStep::Done(Err(e)),
    };
    if status == 206 {
        let range = ByteRange::new(Bytes::new(0), Bytes::new(255));
        let m = metadata_from_range_response(&request.url, range, response);
        let outcome = match m {
            Err(e) => Err(e),
            Ok(metadata) => match validate_webpage_mismatch(&metadata, &request.file_name) {
                Ok(()) => Ok(metadata),
                Err(e) => Err(e),
            },
        };
        assert(range == probe_range());
        assert(range_metadata_holds(m, request.url, probe_range(), *response) && outcome == checked(
            m,
            request.file_name,
        ));
        return ProbeStep::Done(outcome);
    }
    if status == 200 || status == 416 || status == 400 || status == 405 || status == 501 {
        return ProbeStep::Fallback(
            HttpRequest { url: request.url.clone(), headers: request.headers.clone(), range: None },
        );
    }
    ProbeStep::Done(probe_after_full_response(request, response))
}

/// The outcome of a probe from the answer to its unranged request.
pub fn probe_after_full_response(request: &ProbeRequest, response: &HttpResponse) -> (r: Result<
    HttpMetadata,
    HttpProbeError,
>)
    ensures
        r == checked(full_metadata(request.url, *response), request.file_name),
{
    match metadata_from_full_response(&request.url, response) {
        Err(e) => Err(e),
        Ok(metadata) => match validate_webpage_mismatch(&metadata, &request.file_name) {
            Ok(()) => Ok(metadata),
            Err(e) => Err(e),
        },
    }
}

impl HttpProbeError {
    /// The error message, as `Display` shows it.
    pub open spec fn message(&self) -> Seq<char> {
        match self {
            HttpProbeError::Request(m) => m@,
            HttpProbeError::InvalidHeaderName(n) => "invalid HTTP header name `"@ + n@ + "`"@,
            HttpProbeError::InvalidHeaderValue(n) => "invalid HTTP header value for `"@ + n@ + "`"@,
            HttpProbeError::InvalidStatusCode(c) => "invalid HTTP status code `"@ + decimal(
                *c as nat,
            ) + "`"@,
            HttpProbeError::UnexpectedStatus(c) => "unexpected HTTP status `"@ + decimal(*c as nat)
                + "`"@,
            HttpProbeError::InvalidContentLength(v) => "invalid Content-Length `"@ + v@ + "`"@,
            HttpProbeError::InvalidContentRange(v) => "invalid Content-Range `"@ + v@ + "`"@,
            HttpProbeError::MissingContentRange => "missing Content-Range header for ranged response"@,
            HttpProbeError::ContentRangeMismatch { expected, actual } => "Content-Range `"@ + actual@
                + "` does not match requested range `"@ + expected@ + "`"@,
            HttpProbeError::ContentLengthChanged { expected, actual } =>
                "remote content length changed from `"@ + decimal(expected@ as nat) + "` to `"@
                + decimal(actual@ as nat) + "`"@,
            HttpProbeError::EtagChanged { expected, actual } => "remote ETag changed from `"@
                + expected@ + "` to `"@ + actual@ + "`"@,
            HttpProbeError::RangeSupportDisappeared => "remote server no longer supports byte ranges"@,
            HttpProbeError::WebpageMismatch { file_name } =>
                "response appears to be an HTML page, not requested file `"@ + file_name@ + "`"@,
        }
    }

    /// The error message, as `Display` shows it.
    pub fn to_string(&self) -> (r: String)
        ensures
            r@ == self.message(),
    {
        let mut r = String::new();
        match self {
            HttpProbeError::Request(m) => push_str(&mut r, m.as_str()),
            HttpProbeError::InvalidHeaderName(n) => {
                push_str(&mut r, "invalid HTTP header name `");
                push_str(&mut r, n.as_str());
                push_str(&mut r, "`");
            },
            HttpProbeError::InvalidHeaderValue(n) => {
                push_str(&mut r, "invalid HTTP header value for `");
                push_str(&mut r, n.as_str());
                push_str(&mut r, "`");
            },
            HttpProbeError::InvalidStatusCode(c) => {
                push_str(&mut r, "invalid HTTP status code `");
                push_decimal(&mut r, *c as u64);
                push_str(&mut r, "`");
            },
            HttpProbeError::UnexpectedStatus(c) => {
                push_str(&mut r, "unexpected HTTP status `");
                push_decimal(&mut r, *c as u64);
                push_str(&mut r, "`");
            },
            HttpProbeError::InvalidContentLength(v) => {
                push_str(&mut r, "invalid Content-Length `");
                push_str(&mut r, v.as_str());
                push_str(&mut r, "`");
            },
            HttpProbeError::InvalidContentRange(v) => {
                push_str(&mut r, "invalid Content-Range `");
                push_str(&mut r, v.as_str());
                push_str(&mut r, "`");
            },
            HttpProbeError::MissingContentRange => {
                push_str(&mut r, "missing Content-Range header for ranged response");
            },
            HttpProbeError::ContentRangeMismatch { expected, actual } => {
                push_str(&mut r, "Content-Range `");
                push_str(&mut r, actual.as_str());
                push_str(&mut r, "` does not match requested range `");
                push_str(&mut r, expected.as_str());
                push_str(&mut r, "`");
            },
            HttpProbeError::ContentLengthChanged { expected, actual } => {
                push_str(&mut r, "remote content length changed from `");
                push_decimal(&mut r, expected.get());
                push_str(&mut r, "` to `");
                push_decimal(&mut r, actual.get());
                push_str(&mut r, "`");
            },
            HttpProbeError::EtagChanged { expected, actual } => {
                push_str(&mut r, "remote ETag changed from `");
                push_str(&mut r, expected.as_str());
                push_str(&mut r, "` to `");
                push_str(&mut r, actual.as_str());
                push_str(&mut r, "`");
            },
            HttpProbeError::RangeSupportDisappeared => {
                push_str(&mut r, "remote server no longer supports byte ranges");
            },
            HttpProbeError::WebpageMismatch { file_name } => {
                push_str(&mut r, "response appears to be an HTML page, not requested file `");
                push_str(&mut r, file_name.as_str());
                push_str(&mut r, "`");
            },
        }
        r
    }
}

/// Most response body bytes a probe keeps.
pub const MAX_PROBE_BODY_BYTES: usize = 4096;

/// Keeps what fits of a received probe body chunk, up to `MAX_PROBE_BODY_BYTES` in
/// all. Returns whether reading should go on: the whole chunk fit and there is room
/// left.
pub fn capture_probe_chunk(body: &mut Vec<u8>, chunk: &[u8]) -> (more: bool)
    requires
        old(body)@.len() <= MAX_PROBE_BODY_BYTES,
    ensures
        ({
            let room = MAX_PROBE_BODY_BYTES - old(body)@.len();
            let kept = if chunk@.len() <= room {
                chunk@.len() as int
            } else {
                room
            };
            &&& final(body)@ == old(body)@ + chunk@.take(kept)
            &&& more == (kept == chunk@.len() && final(body)@.len() < MAX_PROBE_BODY_BYTES)
        }),
{
    let room = MAX_PROBE_BODY_BYTES - body.len();
    let kept = if chunk.len() <= room {
        chunk.len()
    } else {
        room
    };
    let ghost start = body@;
    let mut i: usize = 0;
    while i < kept
        invariant
            i <= kept <= chunk@.len(),
            body@ == start + chunk@.take(i as int),
        decreases kept - i,
    {
        body.push(chunk[i]);
        i = i + 1;
        assert(body@ =~= start + chunk@.take(i as int));
    }
    kept == chunk.len() && body.len() < MAX_PROBE_BODY_BYTES
}

/// Whether a request header is forwarded to the server: every header but `Host`, in any
/// letter case, which the client sets itself.
pub fn is_forwarded_header(name: &str) -> (r: bool)
    ensures
        r == !eq_ignore_ascii_case(name@, "host"@),
{
    let v = chars_of(name);
    let host = chars_of("host");
    assert(v@.subrange(0, v@.len() as int) == name@);
    !crate::text::range_eq_ignore_ascii_case(&v, 0, v.len(), &host)
}

} // verus!
