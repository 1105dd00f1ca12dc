use std::collections::BTreeMap;

use vstd::prelude::*;

use crate::db::{
    bytes_to_i64, i64_to_bool, i64_to_bytes, i64_to_nonzero_u16, i64_to_u32, option_bps_to_i64,
    option_bytes_to_i64, option_i64_to_bps, option_i64_to_bytes, option_i64_to_nonzero_u16,
    DbError, DbResult,
};
use crate::download::model::{
    Bytes, BytesPerSecond, DownloadFailure, DownloadId, DownloadItem, DownloadKind, DownloadPart,
    DownloadStatus, FailureKind, NonZeroU16, PartId, PartStatus, QueueId,
};
use crate::queue::model::{Queue, QueueItem};

verus! {

/// Column values of one `downloads` row, as SQLite stores them.
#[derive(Debug, Clone, PartialEq, Eq)]
pub struct DownloadRow {
    pub id: i64,
    pub kind: String,
    pub url: String,
    pub download_page: Option<String>,
    pub headers_json: Option<String>,
    pub file_name: String,
    pub folder: String,
    pub status: String,
    pub total_bytes: Option<i64>,
    pub downloaded_bytes: i64,
    pub etag: Option<String>,
    pub last_modified: Option<String>,
    pub preferred_connections: Option<i64>,
    pub speed_limit_bps: Option<i64>,
    pub error_kind: Option<String>,
    pub error_message: Option<String>,
    pub created_at: i64,
    pub started_at: Option<i64>,
    pub completed_at: Option<i64>,
    pub updated_at: i64,
}

/// Column values of one `download_parts` row.
#[derive(Debug, Clone, PartialEq, Eq)]
pub struct PartRow {
    pub id: i64,
    pub download_id: i64,
    pub part_index: i64,
    pub start_byte: i64,
    pub end_byte: Option<i64>,
    pub current_byte: i64,
    pub status: String,
    pub retry_count: i64,
    pub updated_at: i64,
}

/// Column values of one `queues` row.
#[derive(Debug, Clone, PartialEq, Eq)]
pub struct QueueRow {
    pub id: i64,
    pub name: String,
    pub max_concurrent: i64,
    pub stop_on_empty: i64,
    pub schedule_json: Option<String>,
    pub created_at: i64,
    pub updated_at: i64,
}

/// Column values of one `queue_items` row.
#[derive(Debug, Clone, Copy, PartialEq, Eq, Structural)]
pub struct QueueItemRow {
    pub queue_id: i64,
    pub download_id: i64,
    pub position: i64,
}

/// What `serde_json::from_str` reads from a JSON text as a map of header names to
/// values: the map, or the message of its error.
pub uninterp spec fn parsed_header_map(text: Seq<char>) -> Result<Map<String, String>, Seq<char>>;

/// What `serde_json::to_string` writes for a map of header names to values: the JSON
/// text, or the message of its error.
pub uninterp spec fn header_map_json(headers: Map<String, String>) -> Result<Seq<char>, Seq<char>>;

/// Reads stored request headers with `serde_json::from_str`. The result is the named
/// `parsed_header_map` of the text; an error is carried as its `Display` message.
#[verifier::external_body]
fn headers_from_json(text: &str) -> (r: Result<BTreeMap<String, String>, String>)
    ensures
        match r {
            Ok(m) => parsed_header_map(text@) == Ok::<Map<String, String>, Seq<char>>(m@),
            Err(e) => parsed_header_map(text@) == Err::<Map<String, String>, Seq<char>>(e@),
        },
{
    match serde_json::from_str::<BTreeMap<String, String>>(text) {
        Ok(m) => Ok(m),
        Err(e) => Err(e.to_string()),
    }
}

/// Writes request headers with `serde_json::to_string`. The result is the named
/// `header_map_json` of the map. A map with string keys always serializes (the crate
/// fails only on non-string keys), and `serde_json::from_str` reads the text it writes
/// back as the same map.
#[verifier::external_body]
fn headers_to_json(headers: &BTreeMap<String, String>) -> (r: Result<String, String>)
    ensures
        match r {
            Ok(t) => {
                &&& header_map_json(headers@) == Ok::<Seq<char>, Seq<char>>(t@)
                &&& parsed_header_map(t@) == Ok::<Map<String, String>, Seq<char>>(headers@)
            },
            Err(_) => false,
        },
{
    match serde_json::to_string(headers) {
        Ok(t) => Ok(t),
        Err(e) => Err(e.to_string()),
    }
}

/// The header map a `headers_json` column holds: none stored means no headers.
pub open spec fn header_column(json: Option<String>) -> Result<Map<String, String>, Seq<char>> {
    match json {
        None => Ok(Map::empty()),
        Some(text) => parsed_header_map(text@),
    }
}

/// `e` is the error reading `value` as the enum named `kind` gives.
pub open spec fn is_enum_error(r: DbError, kind: Seq<char>, value: Seq<char>) -> bool {
    r matches DbError::DomainEnum(e) && e.kind_view() == kind && e.value_view() == value
}

/// Byte count of an optional column.
pub open spec fn bytes_column(value: Option<i64>) -> Option<Bytes> {
    match value {
        None => None,
        Some(v) => Some(Bytes(v as u64)),
    }
}

/// The decoded header map, or the codec's error message, as plain values.
pub open spec fn decoded_headers(headers: Result<BTreeMap<String, String>, String>) -> Result<
    Map<String, String>,
    Seq<char>,
> {
    match headers {
        Ok(m) => Ok(m@),
        Err(e) => Err(e@),
    }
}

/// Reading a `downloads` row whose headers column decoded to `headers`: the first column
/// that cannot be decoded fails the read, in the order headers, failure kind, kind,
/// status, total, downloaded, connections, speed limit; otherwise every column becomes
/// its field.
pub open spec fn download_columns_read(
    row: DownloadRow,
    headers: Result<Map<String, String>, Seq<char>>,
    r: DbResult<DownloadItem>,
) -> bool {
    if headers is Err {
        r matches Err(DbError::Json(m)) && m@ == headers->Err_0
    } else if row.error_kind is Some && FailureKind::from_persisted(row.error_kind->0@) is None {
        r is Err && is_enum_error(r->Err_0, "FailureKind"@, row.error_kind->0@)
    } else if DownloadKind::from_persisted(row.kind@) is None {
        r is Err && is_enum_error(r->Err_0, "DownloadKind"@, row.kind@)
    } else if DownloadStatus::from_persisted(row.status@) is None {
        r is Err && is_enum_error(r->Err_0, "DownloadStatus"@, row.status@)
    } else if row.total_bytes is Some && row.total_bytes->0 < 0 {
        r == Err::<DownloadItem, DbError>(
            DbError::IntegerOutOfRange { field: "total_bytes", value: row.total_bytes->0 as i128 },
        )
    } else if row.downloaded_bytes < 0 {
        r == Err::<DownloadItem, DbError>(
            DbError::IntegerOutOfRange {
                field: "downloaded_bytes",
                value: row.downloaded_bytes as i128,
            },
        )
    } else if row.preferred_connections is Some && !(0 < row.preferred_connections->0 <= u16::MAX) {
        r == Err::<DownloadItem, DbError>(
            DbError::IntegerOutOfRange {
                field: "preferred_connections",
                value: row.preferred_connections->0 as i128,
            },
        )
    } else if row.speed_limit_bps is Some && row.speed_limit_bps->0 < 0 {
        r == Err::<DownloadItem, DbError>(
            DbError::IntegerOutOfRange {
                field: "speed_limit_bps",
                value: row.speed_limit_bps->0 as i128,
            },
        )
    } else {
        &&& r is Ok
        &&& r->Ok_0.id@ == row.id
        &&& Some(r->Ok_0.kind) == DownloadKind::from_persisted(row.kind@)
        &&& r->Ok_0.url == row.url
        &&& r->Ok_0.download_page == row.download_page
        &&& r->Ok_0.headers@ == headers->Ok_0
        &&& r->Ok_0.file_name == row.file_name
        &&& r->Ok_0.folder == row.folder
        &&& Some(r->Ok_0.status) == DownloadStatus::from_persisted(row.status@)
        &&& r->Ok_0.total_bytes == bytes_column(row.total_bytes)
        &&& r->Ok_0.downloaded_bytes@ == row.downloaded_bytes
        &&& r->Ok_0.etag == row.etag
        &&& r->Ok_0.last_modified == row.last_modified
        &&& match row.preferred_connections {
            None => r->Ok_0.preferred_connections is None,
            Some(p) => r->Ok_0.preferred_connections is Some
                && r->Ok_0.preferred_connections->0@ == p,
        }
        &&& r->Ok_0.speed_limit == match row.speed_limit_bps {
            None => None,
            Some(s) => Some(BytesPerSecond(s as u64)),
        }
        &&& match row.error_kind {
            None => r->Ok_0.failure is None,
            Some(k) => {
                &&& r->Ok_0.failure is Some
                &&& Some(r->Ok_0.failure->0.kind) == FailureKind::from_persisted(k@)
                &&& r->Ok_0.failure->0.message@ == match row.error_message {
                    Some(m) => m@,
                    None => Seq::<char>::empty(),
                }
                &&& row.error_message is Some ==> r->Ok_0.failure->0.message
                    == row.error_message->0
            },
        }
        &&& r->Ok_0.created_at == row.created_at
        &&& r->Ok_0.started_at == row.started_at
        &&& r->Ok_0.completed_at == row.completed_at
        &&& r->Ok_0.updated_at == row.updated_at
    }
}

/// Reading a `downloads` row: its headers column decoded with the JSON codec, then
/// every other column.
pub open spec fn download_row_read(row: DownloadRow, r: DbResult<DownloadItem>) -> bool {
    download_columns_read(row, header_column(row.headers_json), r)
}

/// Decodes a `downloads` row into an item.
pub fn download_from_row(row: DownloadRow) -> (r: DbResult<DownloadItem>)
    ensures
        download_row_read(row, r),
{
    let headers = match &row.headers_json {
        None => Ok(BTreeMap::new()),
        Some(text) => headers_from_json(text.as_str()),
    };
    download_from_columns(row, headers)
}

/// Decodes a `downloads` row whose headers column was decoded to `headers`.
pub fn download_from_columns(
    row: DownloadRow,
    headers: Result<BTreeMap<String, String>, String>,
) -> (r: DbResult<DownloadItem>)
    ensures
        download_columns_read(row, decoded_headers(headers), r),
{
    let headers = match headers {
        Ok(m) => m,
        Err(e) => return Err(DbError::Json(e)),
    };
    let failure = match &row.error_kind {
        None => None,
        Some(kind) => {
            let kind = match FailureKind::from_str(kind.as_str()) {
                Ok(k) => k,
                Err(e) => return Err(DbError::DomainEnum(e)),
            };
            let message = match &row.error_message {
                Some(m) => m.clone(),
                None => String::new(),
            };
            Some(DownloadFailure { kind, message })
        },
    };
    let kind = match DownloadKind::from_str(row.kind.as_str()) {
        Ok(k) => k,
        Err(e) => return Err(DbError::DomainEnum(e)),
    };
    let status = match DownloadStatus::from_str(row.status.as_str()) {
        Ok(s) => s,
        Err(e) => return Err(DbError::DomainEnum(e)),
    };
    let total_bytes = match option_i64_to_bytes("total_bytes", row.total_bytes) {
        Ok(t) => t,
        Err(e) => return Err(e),
    };
    let downloaded_bytes = match i64_to_bytes("downloaded_bytes", row.downloaded_bytes) {
        Ok(d) => d,
        Err(e) => return Err(e),
    };
    let preferred_connections = match option_i64_to_nonzero_u16(
        "preferred_connections",
        row.preferred_connections,
    ) {
        Ok(p) => p,
        Err(e) => return Err(e),
    };
    let speed_limit = match option_i64_to_bps("speed_limit_bps", row.speed_limit_bps) {
        Ok(s) => s,
        Err(e) => return Err(e),
    };
    Ok(
        DownloadItem {
            id: DownloadId::new(row.id),
            kind,
            url: row.url,
            download_page: row.download_page,
            headers,
            file_name: row.file_name,
            folder: row.folder,
            status,
            total_bytes,
            downloaded_bytes,
            etag: row.etag,
            last_modified: row.last_modified,
            preferred_connections,
            speed_limit,
            failure,
            created_at: row.created_at,
            started_at: row.started_at,
            completed_at: row.completed_at,
            updated_at: row.updated_at,
        },
    )
}

/// The `headers_json` column written for a header map: nothing for no headers,
/// otherwise the JSON text, or the codec's error message.
pub open spec fn headers_column(headers: Map<String, String>) -> Result<Option<Seq<char>>, Seq<char>> {
    if headers.is_empty() {
        Ok(None)
    } else {
        match header_map_json(headers) {
            Ok(t) => Ok(Some(t)),
            Err(e) => Err(e),
        }
    }
}

/// The encoded headers column, or the codec's error message, as plain values.
pub open spec fn encoded_headers(json: Result<Option<String>, String>) -> Result<
    Option<Seq<char>>,
    Seq<char>,
> {
    match json {
        Ok(None) => Ok(None),
        Ok(Some(t)) => Ok(Some(t@)),
        Err(e) => Err(e@),
    }
}

/// Writing a download as a row whose headers column encoded to `json`: the headers must
/// encode and every count must fit in an `i64`, checked in the order headers, total,
/// downloaded, speed limit; otherwise every field becomes its column.
pub open spec fn download_columns_written(
    item: DownloadItem,
    json: Result<Option<Seq<char>>, Seq<char>>,
    r: DbResult<DownloadRow>,
) -> bool {
    if json is Err {
        r matches Err(DbError::Json(m)) && m@ == json->Err_0
    } else if item.total_bytes is Some && item.total_bytes->0@ > i64::MAX {
        r == Err::<DownloadRow, DbError>(
            DbError::IntegerOutOfRange { field: "total_bytes", value: item.total_bytes->0@ as i128 },
        )
    } else if item.downloaded_bytes@ > i64::MAX {
        r == Err::<DownloadRow, DbError>(
            DbError::IntegerOutOfRange {
                field: "downloaded_bytes",
                value: item.downloaded_bytes@ as i128,
            },
        )
    } else if item.speed_limit is Some && item.speed_limit->0@ > i64::MAX {
        r == Err::<DownloadRow, DbError>(
            DbError::IntegerOutOfRange {
                field: "speed_limit_bps",
                value: item.speed_limit->0@ as i128,
            },
        )
    } else {
        &&& r is Ok
        &&& r->Ok_0.id == item.id@
        &&& r->Ok_0.kind@ == item.kind.persisted()
        &&& r->Ok_0.url == item.url
        &&& r->Ok_0.download_page == item.download_page
        &&& match json->Ok_0 {
            None => r->Ok_0.headers_json is None,
            Some(t) => r->Ok_0.headers_json is Some && r->Ok_0.headers_json->0@ == t,
        }
        &&& r->Ok_0.file_name == item.file_name
        &&& r->Ok_0.folder == item.folder
        &&& r->Ok_0.status@ == item.status.persisted()
        &&& r->Ok_0.total_bytes == match item.total_bytes {
            None => None,
            Some(t) => Some(t@ as i64),
        }
        &&& r->Ok_0.downloaded_bytes == item.downloaded_bytes@ as i64
        &&& r->Ok_0.etag == item.etag
        &&& r->Ok_0.last_modified == item.last_modified
        &&& r->Ok_0.preferred_connections == match item.preferred_connections {
            None => None,
            Some(p) => Some(p@ as i64),
        }
        &&& r->Ok_0.speed_limit_bps == match item.speed_limit {
            None => None,
            Some(s) => Some(s@ as i64),
        }
        &&& match item.failure {
            None => r->Ok_0.error_kind is None && r->Ok_0.error_message is None,
            Some(f) => {
                &&& r->Ok_0.error_kind is Some
                &&& r->Ok_0.error_kind->0@ == f.kind.persisted()
                &&& r->Ok_0.error_message == Some(f.message)
            },
        }
        &&& r->Ok_0.created_at == item.created_at
        &&& r->Ok_0.started_at == item.started_at
        &&& r->Ok_0.completed_at == item.completed_at
        &&& r->Ok_0.updated_at == item.updated_at
    }
}

/// Writing a download as a row: its headers encoded with the JSON codec (no column for
/// no headers), then every other field. The headers never fail to encode, and the text
/// stored for them reads back as the same map.
pub open spec fn download_row_written(item: DownloadItem, r: DbResult<DownloadRow>) -> bool {
    &&& download_columns_written(item, headers_column(item.headers@), r)
    &&& !(r matches Err(DbError::Json(_)))
    &&& r is Ok && !item.headers@.is_empty() ==> {
        &&& r->Ok_0.headers_json is Some
        &&& parsed_header_map(r->Ok_0.headers_json->0@) == Ok::<Map<String, String>, Seq<char>>(
            item.headers@,
        )
    }
}

/// Encodes an item as the column values of its `downloads` row.
pub fn download_to_row(item: &DownloadItem) -> (r: DbResult<DownloadRow>)
    ensures
        download_row_written(*item, r),
{
    let json = if item.headers.is_empty() {
        Ok(None)
    } else {
        match headers_to_json(&item.headers) {
            Ok(t) => Ok(Some(t)),
            Err(e) => Err(e),
        }
    };
    download_to_columns(item, json)
}

/// Encodes an item as the column values of its `downloads` row, with its headers column
/// already encoded as `json`.
pub fn download_to_columns(item: &DownloadItem, json: Result<Option<String>, String>) -> (r: DbResult<
    DownloadRow,
>)
    ensures
        download_columns_written(*item, encoded_headers(json), r),
{
    let headers_json = match json {
        Ok(j) => j,
        Err(e) => return Err(DbError::Json(e)),
    };
    let total_bytes = match option_bytes_to_i64("total_bytes", item.total_bytes) {
        Ok(t) => t,
        Err(e) => return Err(e),
    };
    let downloaded_bytes = match bytes_to_i64("downloaded_bytes", item.downloaded_bytes) {
        Ok(d) => d,
        Err(e) => return Err(e),
    };
    let speed_limit_bps = match option_bps_to_i64("speed_limit_bps", item.speed_limit) {
        Ok(s) => s,
        Err(e) => return Err(e),
    };
    let mut kind = String::new();
    crate::text::push_str(&mut kind, item.kind.as_str());
    let mut status = String::new();
    crate::text::push_str(&mut status, item.status.as_str());
    let (error_kind, error_message) = match &item.failure {
        None => (None, None),
        Some(f) => {
            let mut k = String::new();
            crate::text::push_str(&mut k, f.kind.as_str());
            (Some(k), Some(f.message.clone()))
        },
    };
    let preferred_connections = match item.preferred_connections {
        None => None,
        Some(p) => Some(p.get() as i64),
    };
    Ok(
        DownloadRow {
            id: item.id.get(),
            kind,
            url: item.url.clone(),
            download_page: item.download_page.clone(),
            headers_json,
            file_name: item.file_name.clone(),
            folder: item.folder.clone(),
            status,
            total_bytes,
            downloaded_bytes,
            etag: item.etag.clone(),
            last_modified: item.last_modified.clone(),
            preferred_connections,
            speed_limit_bps,
            error_kind,
            error_message,
            created_at: item.created_at,
            started_at: item.started_at,
            completed_at: item.completed_at,
            updated_at: item.updated_at,
        },
    )
}

/// Reading a `download_parts` row: the first column that cannot be decoded fails the
/// read, in the order index, start, end, cursor, status, retries.
pub open spec fn part_row_read(row: PartRow, r: DbResult<DownloadPart>) -> bool {
    if !(0 <= row.part_index <= u32::MAX) {
        r == Err::<DownloadPart, DbError>(
            DbError::IntegerOutOfRange { field: "part_index", value: row.part_index as i128 },
        )
    } else if row.start_byte < 0 {
        r == Err::<DownloadPart, DbError>(
            DbError::IntegerOutOfRange { field: "start_byte", value: row.start_byte as i128 },
        )
    } else if row.end_byte is Some && row.end_byte->0 < 0 {
        r == Err::<DownloadPart, DbError>(
            DbError::IntegerOutOfRange { field: "end_byte", value: row.end_byte->0 as i128 },
        )
    } else if row.current_byte < 0 {
        r == Err::<DownloadPart, DbError>(
            DbError::IntegerOutOfRange { field: "current_byte", value: row.current_byte as i128 },
        )
    } else if PartStatus::from_persisted(row.status@) is None {
        r is Err && is_enum_error(r->Err_0, "PartStatus"@, row.status@)
    } else if !(0 <= row.retry_count <= u32::MAX) {
        r == Err::<DownloadPart, DbError>(
            DbError::IntegerOutOfRange { field: "retry_count", value: row.retry_count as i128 },
        )
    } else {
        r == Ok::<DownloadPart, DbError>(
            DownloadPart {
                id: PartId(row.id),
                download_id: DownloadId(row.download_id),
                index: row.part_index as u32,
                start_byte: Bytes(row.start_byte as u64),
                end_byte: bytes_column(row.end_byte),
                current_byte: Bytes(row.current_byte as u64),
                status: PartStatus::from_persisted(row.status@)->0,
                retry_count: row.retry_count as u32,
                updated_at: row.updated_at,
            },
        )
    }
}

/// Decodes a `download_parts` row into a part.
pub fn part_from_row(row: PartRow) -> (r: DbResult<DownloadPart>)
    ensures
        part_row_read(row, r),
{
    let index = match i64_to_u32("part_index", row.part_index) {
        Ok(i) => i,
        Err(e) => return Err(e),
    };
    let start_byte = match i64_to_bytes("start_byte", row.start_byte) {
        Ok(b) => b,
        Err(e) => return Err(e),
    };
    let end_byte = match option_i64_to_bytes("end_byte", row.end_byte) {
        Ok(b) => b,
        Err(e) => return Err(e),
    };
    let current_byte = match i64_to_bytes("current_byte", row.current_byte) {
        Ok(b) => b,
        Err(e) => return Err(e),
    };
    let status = match PartStatus::from_str(row.status.as_str()) {
        Ok(s) => s,
        Err(e) => return Err(DbError::DomainEnum(e)),
    };
    let retry_count = match i64_to_u32("retry_count", row.retry_count) {
        Ok(c) => c,
        Err(e) => return Err(e),
    };
    Ok(
        DownloadPart {
            id: PartId::new(row.id),
            download_id: DownloadId::new(row.download_id),
            index,
            start_byte,
            end_byte,
            current_byte,
            status,
            retry_count,
            updated_at: row.updated_at,
        },
    )
}

/// Writing a part as a row: every offset must fit in an `i64`, checked in the order
/// start, end, cursor; otherwise every field becomes its column.
pub open spec fn part_row_written(part: DownloadPart, r: DbResult<PartRow>) -> bool {
    if part.start_byte@ > i64::MAX {
        r == Err::<PartRow, DbError>(
            DbError::IntegerOutOfRange { field: "start_byte", value: part.start_byte@ as i128 },
        )
    } else if part.end_byte is Some && part.end_byte->0@ > i64::MAX {
        r == Err::<PartRow, DbError>(
            DbError::IntegerOutOfRange { field: "end_byte", value: part.end_byte->0@ as i128 },
        )
    } else if part.current_byte@ > i64::MAX {
        r == Err::<PartRow, DbError>(
            DbError::IntegerOutOfRange { field: "current_byte", value: part.current_byte@ as i128 },
        )
    } else {
        &&& r is Ok
        &&& r->Ok_0.id == part.id@
        &&& r->Ok_0.download_id == part.download_id@
        &&& r->Ok_0.part_index == part.index as i64
        &&& r->Ok_0.start_byte == part.start_byte@ as i64
        &&& r->Ok_0.end_byte == match part.end_byte {
            None => None,
            Some(e) => Some(e@ as i64),
        }
        &&& r->Ok_0.current_byte == part.current_byte@ as i64
        &&& r->Ok_0.status@ == part.status.persisted()
        &&& r->Ok_0.retry_count == part.retry_count as i64
        &&& r->Ok_0.updated_at == part.updated_at
    }
}

/// Encodes a part as the column values of its `download_parts` row.
pub fn part_to_row(part: &DownloadPart) -> (r: DbResult<PartRow>)
    ensures
        part_row_written(*part, r),
{
    let start_byte = match bytes_to_i64("start_byte", part.start_byte) {
        Ok(b) => b,
        Err(e) => return Err(e),
    };
    let end_byte = match option_bytes_to_i64("end_byte", part.end_byte) {
        Ok(b) => b,
        Err(e) => return Err(e),
    };
    let current_byte = match bytes_to_i64("current_byte", part.current_byte) {
        Ok(b) => b,
        Err(e) => return Err(e),
    };
    let mut status = String::new();
    crate::text::push_str(&mut status, part.status.as_str());
    Ok(
        PartRow {
            id: part.id.get(),
            download_id: part.download_id.get(),
            part_index: part.index as i64,
            start_byte,
            end_byte,
            current_byte,
            status,
            retry_count: part.retry_count as i64,
            updated_at: part.updated_at,
        },
    )
}

/// Reading a `queues` row: the limit must be a non-zero `u16` and the flag 0 or 1.
pub open spec fn queue_row_read(row: QueueRow, r: DbResult<Queue>) -> bool {
    if !(0 < row.max_concurrent <= u16::MAX) {
        r == Err::<Queue, DbError>(
            DbError::IntegerOutOfRange { field: "max_concurrent", value: row.max_concurrent as i128 },
        )
    } else if !(row.stop_on_empty == 0 || row.stop_on_empty == 1) {
        r == Err::<Queue, DbError>(
            DbError::IntegerOutOfRange { field: "stop_on_empty", value: row.stop_on_empty as i128 },
        )
    } else {
        &&& r is Ok
        &&& r->Ok_0.id@ == row.id
        &&& r->Ok_0.name == row.name
        &&& r->Ok_0.max_concurrent@ == row.max_concurrent
        &&& r->Ok_0.stop_on_empty == (row.stop_on_empty == 1)
        &&& r->Ok_0.schedule_json == row.schedule_json
        &&& r->Ok_0.created_at == row.created_at
        &&& r->Ok_0.updated_at == row.updated_at
    }
}

/// Decodes a `queues` row into a queue.
pub fn queue_from_row(row: QueueRow) -> (r: DbResult<Queue>)
    ensures
        queue_row_read(row, r),
{
    let max_concurrent = match i64_to_nonzero_u16("max_concurrent", row.max_concurrent) {
        Ok(m) => m,
        Err(e) => return Err(e),
    };
    let stop_on_empty = match i64_to_bool("stop_on_empty", row.stop_on_empty) {
        Ok(b) => b,
        Err(e) => return Err(e),
    };
    Ok(
        Queue {
            id: QueueId::new(row.id),
            name: row.name,
            max_concurrent,
            stop_on_empty,
            schedule_json: row.schedule_json,
            created_at: row.created_at,
            updated_at: row.updated_at,
        },
    )
}

/// The `queues` row of a queue; the flag is stored as 0 or 1.
pub open spec fn queue_row_of(queue: Queue) -> QueueRow {
    QueueRow {
        id: queue.id@,
        name: queue.name,
        max_concurrent: queue.max_concurrent@ as i64,
        stop_on_empty: if queue.stop_on_empty {
            1
        } else {
            0
        },
        schedule_json: queue.schedule_json,
        created_at: queue.created_at,
        updated_at: queue.updated_at,
    }
}

/// Encodes a queue as the column values of its `queues` row.
pub fn queue_to_row(queue: &Queue) -> (r: QueueRow)
    ensures
        r == queue_row_of(*queue),
{
    QueueRow {
        id: queue.id.get(),
        name: queue.name.clone(),
        max_concurrent: queue.max_concurrent.get() as i64,
        stop_on_empty: if queue.stop_on_empty {
            1
        } else {
            0
        },
        schedule_json: queue.schedule_json.clone(),
        created_at: queue.created_at,
        updated_at: queue.updated_at,
    }
}

/// Decodes a `queue_items` row; the position must fit in a `u32`.
pub fn queue_item_from_row(row: QueueItemRow) -> (r: DbResult<QueueItem>)
    ensures
        r == (if 0 <= row.position <= u32::MAX {
            Ok::<QueueItem, DbError>(
                QueueItem {
                    queue_id: QueueId(row.queue_id),
                    download_id: DownloadId(row.download_id),
                    position: row.position as u32,
                },
            )
        } else {
            Err(DbError::IntegerOutOfRange { field: "position", value: row.position as i128 })
        }),
{
    match i64_to_u32("position", row.position) {
        Ok(position) => Ok(
            QueueItem {
                queue_id: QueueId::new(row.queue_id),
                download_id: DownloadId::new(row.download_id),
                position,
            },
        ),
        Err(e) => Err(e),
    }
}

/// Encodes a queue item as the column values of its `queue_items` row.
pub fn queue_item_to_row(item: QueueItem) -> (r: QueueItemRow)
    ensures
        r == (QueueItemRow {
            queue_id: item.queue_id@,
            download_id: item.download_id@,
            position: item.position as i64,
        }),
{
    QueueItemRow {
        queue_id: item.queue_id.get(),
        download_id: item.download_id.get(),
        position: item.position as i64,
    }
}

/// Reading back a stored download gives the item that was written: every field is
/// the same, and the header map has the same entries. (A connection count is never
/// zero.)
pub proof fn lemma_download_row_round_trip(
    item: DownloadItem,
    row: DownloadRow,
    back: DbResult<DownloadItem>,
)
    requires
        download_row_written(item, Ok(row)),
        download_row_read(row, back),
        item.preferred_connections is Some ==> item.preferred_connections->0@ != 0,
    ensures
        back is Ok,
        back->Ok_0.headers@ == item.headers@,
        back->Ok_0 == (DownloadItem { headers: back->Ok_0.headers, ..item }),
{
    item.kind.lemma_round_trip();
    item.status.lemma_round_trip();
    if item.headers@.is_empty() {
        assert(item.headers@ =~= Map::<String, String>::empty());
    }
    match item.failure {
        Some(f) => {
            f.kind.lemma_round_trip();
        },
        None => {},
    }
    let got = back->Ok_0;
    match item.preferred_connections {
        Some(p) => {
            NonZeroU16::lemma_view_injective(p, got.preferred_connections->0);
        },
        None => {},
    }
}

/// Reading back a stored part gives the part that was written.
pub proof fn lemma_part_row_round_trip(part: DownloadPart, row: PartRow, back: DbResult<DownloadPart>)
    requires
        part_row_written(part, Ok(row)),
        part_row_read(row, back),
    ensures
        back == Ok::<DownloadPart, DbError>(part),
{
    part.status.lemma_round_trip();
}

/// Reading back a stored queue gives the queue that was written. (Its limit is never
/// zero.)
pub proof fn lemma_queue_row_round_trip(queue: Queue, back: DbResult<Queue>)
    requires
        queue.max_concurrent@ != 0,
        queue_row_read(queue_row_of(queue), back),
    ensures
        back == Ok::<Queue, DbError>(queue),
{
    NonZeroU16::lemma_view_injective(queue.max_concurrent, back->Ok_0.max_concurrent);
}

} // verus!
