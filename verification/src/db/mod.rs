pub mod rows;

use vstd::prelude::*;

use crate::download::model::{Bytes, BytesPerSecond, DownloadId, NonZeroU16, ParseDomainEnumError, QueueId};
use crate::text::{push_signed_decimal, push_signed_decimal_i128, push_str, signed_decimal};

verus! {

/// Database-layer error. Errors of the SQL driver and of the JSON codec are carried as
/// their messages.
#[derive(Debug, Clone, PartialEq, Eq)]
pub enum DbError {
    /// SQL driver operation failed.
    Sqlx(String),
    /// Migration failed.
    Migration(String),
    /// JSON serialization or deserialization failed.
    Json(String),
    /// Persisted enum value is invalid.
    DomainEnum(ParseDomainEnumError),
    /// Stored integer cannot be represented by the target domain type.
    IntegerOutOfRange { field: &'static str, value: i128 },
    /// Domain path cannot be safely stored in the current TEXT schema.
    NonUtf8Path { field: &'static str },
    /// Requested row does not exist.
    NotFound { entity: &'static str, id: i64 },
    /// Child row does not belong to the requested parent.
    ParentMismatch { child: &'static str, child_id: i64, parent: &'static str, parent_id: i64 },
}

/// Result type used by database bootstrap and repositories.
pub type DbResult<T> = Result<T, DbError>;

impl DbError {
    /// The error message, as `Display` shows it.
    pub open spec fn message(&self) -> Seq<char> {
        match self {
            DbError::Sqlx(m) => m@,
            DbError::Migration(m) => m@,
            DbError::Json(m) => m@,
            DbError::DomainEnum(e) => e.message(),
            DbError::IntegerOutOfRange { field, value } => "integer field `"@ + field@
                + "` out of range: "@ + signed_decimal(*value as int),
            DbError::NonUtf8Path { field } => "path field `"@ + field@ + "` is not valid UTF-8"@,
            DbError::NotFound { entity, id } => entity@ + " `"@ + signed_decimal(*id as int)
                + "` not found"@,
            DbError::ParentMismatch { child, child_id, parent, parent_id } => child@ + " `"@
                + signed_decimal(*child_id as int) + "` does not belong to "@ + parent@ + " `"@
                + signed_decimal(*parent_id as int) + "`"@,
        }
    }

    /// The error message, as `Display` shows it.
    pub fn to_string(&self) -> (r: String)
        ensures
            r@ == self.message(),
    {
        let mut r = String::new();
        match self {
            DbError::Sqlx(m) => push_str(&mut r, m.as_str()),
            DbError::Migration(m) => push_str(&mut r, m.as_str()),
            DbError::Json(m) => push_str(&mut r, m.as_str()),
            DbError::DomainEnum(e) => {
                let m = e.to_string();
                push_str(&mut r, m.as_str());
            },
            DbError::IntegerOutOfRange { field, value } => {
                push_str(&mut r, "integer field `");
                push_str(&mut r, field);
                push_str(&mut r, "` out of range: ");
                push_signed_decimal_i128(&mut r, *value);
            },
            DbError::NonUtf8Path { field } => {
                push_str(&mut r, "path field `");
                push_str(&mut r, field);
                push_str(&mut r, "` is not valid UTF-8");
            },
            DbError::NotFound { entity, id } => {
                push_str(&mut r, entity);
                push_str(&mut r, " `");
                push_signed_decimal(&mut r, *id);
                push_str(&mut r, "` not found");
            },
            DbError::ParentMismatch { child, child_id, parent, parent_id } => {
                push_str(&mut r, child);
                push_str(&mut r, " `");
                push_signed_decimal(&mut r, *child_id);
                push_str(&mut r, "` does not belong to ");
                push_str(&mut r, parent);
                push_str(&mut r, " `");
                push_signed_decimal(&mut r, *parent_id);
                push_str(&mut r, "`");
            },
        }
        r
    }
}

/// Fails with `NotFound` when a write touched no row.
pub fn ensure_affected(rows: u64, entity: &'static str, id: i64) -> (r: DbResult<()>)
    ensures
        r == (if rows == 0 {
            Err(DbError::NotFound { entity, id })
        } else {
            Ok::<(), DbError>(())
        }),
{
    if rows == 0 {
        return Err(DbError::NotFound { entity, id });
    }
    Ok(())
}

/// Fails with `ParentMismatch` when a child row names another parent.
pub fn ensure_parent(
    actual_parent_id: i64,
    expected_parent_id: i64,
    child: &'static str,
    child_id: i64,
    parent: &'static str,
) -> (r: DbResult<()>)
    ensures
        r == (if actual_parent_id != expected_parent_id {
            Err(DbError::ParentMismatch { child, child_id, parent, parent_id: expected_parent_id })
        } else {
            Ok::<(), DbError>(())
        }),
{
    if actual_parent_id != expected_parent_id {
        return Err(DbError::ParentMismatch { child, child_id, parent, parent_id: expected_parent_id });
    }
    Ok(())
}

/// Stores a byte count as a SQL integer.
pub fn bytes_to_i64(field: &'static str, value: Bytes) -> (r: DbResult<i64>)
    ensures
        r == (if value@ <= i64::MAX {
            Ok::<i64, DbError>(value@ as i64)
        } else {
            Err(DbError::IntegerOutOfRange { field, value: value@ as i128 })
        }),
{
    if value.get() <= i64::MAX as u64 {
        Ok(value.get() as i64)
    } else {
        Err(DbError::IntegerOutOfRange { field, value: value.get() as i128 })
    }
}

/// Stores an optional byte count as a SQL integer.
pub fn option_bytes_to_i64(field: &'static str, value: Option<Bytes>) -> (r: DbResult<Option<i64>>)
    ensures
        r == (match value {
            None => Ok::<Option<i64>, DbError>(None),
            Some(v) => if v@ <= i64::MAX {
                Ok(Some(v@ as i64))
            } else {
                Err(DbError::IntegerOutOfRange { field, value: v@ as i128 })
            },
        }),
{
    match value {
        None => Ok(None),
        Some(v) => match bytes_to_i64(field, v) {
            Ok(n) => Ok(Some(n)),
            Err(e) => Err(e),
        },
    }
}

/// Stores an optional speed limit as a SQL integer.
pub fn option_bps_to_i64(field: &'static str, value: Option<BytesPerSecond>) -> (r: DbResult<
    Option<i64>,
>)
    ensures
        r == (match value {
            None => Ok::<Option<i64>, DbError>(None),
            Some(v) => if v@ <= i64::MAX {
                Ok(Some(v@ as i64))
            } else {
                Err(DbError::IntegerOutOfRange { field, value: v@ as i128 })
            },
        }),
{
    match value {
        None => Ok(None),
        Some(v) => if v.get() <= i64::MAX as u64 {
            Ok(Some(v.get() as i64))
        } else {
            Err(DbError::IntegerOutOfRange { field, value: v.get() as i128 })
        },
    }
}

/// Reads a non-negative SQL integer.
pub fn i64_to_u64(field: &'static str, value: i64) -> (r: DbResult<u64>)
    ensures
        r == (if value >= 0 {
            Ok::<u64, DbError>(value as u64)
        } else {
            Err(DbError::IntegerOutOfRange { field, value: value as i128 })
        }),
{
    if value >= 0 {
        Ok(value as u64)
    } else {
        Err(DbError::IntegerOutOfRange { field, value: value as i128 })
    }
}

/// Reads a SQL integer that must fit in a `u32`.
pub fn i64_to_u32(field: &'static str, value: i64) -> (r: DbResult<u32>)
    ensures
        r == (if 0 <= value <= u32::MAX {
            Ok::<u32, DbError>(value as u32)
        } else {
            Err(DbError::IntegerOutOfRange { field, value: value as i128 })
        }),
{
    if 0 <= value && value <= u32::MAX as i64 {
        Ok(value as u32)
    } else {
        Err(DbError::IntegerOutOfRange { field, value: value as i128 })
    }
}

/// Reads a byte count.
pub fn i64_to_bytes(field: &'static str, value: i64) -> (r: DbResult<Bytes>)
    ensures
        r == (if value >= 0 {
            Ok::<Bytes, DbError>(Bytes(value as u64))
        } else {
            Err(DbError::IntegerOutOfRange { field, value: value as i128 })
        }),
{
    match i64_to_u64(field, value) {
        Ok(v) => Ok(Bytes::new(v)),
        Err(e) => Err(e),
    }
}

/// Reads an optional byte count.
pub fn option_i64_to_bytes(field: &'static str, value: Option<i64>) -> (r: DbResult<Option<Bytes>>)
    ensures
        r == (match value {
            None => Ok::<Option<Bytes>, DbError>(None),
            Some(v) => if v >= 0 {
                Ok(Some(Bytes(v as u64)))
            } else {
                Err(DbError::IntegerOutOfRange { field, value: v as i128 })
            },
        }),
{
    match value {
        None => Ok(None),
        Some(v) => match i64_to_bytes(field, v) {
            Ok(b) => Ok(Some(b)),
            Err(e) => Err(e),
        },
    }
}

/// Reads an optional speed limit.
pub fn option_i64_to_bps(field: &'static str, value: Option<i64>) -> (r: DbResult<
    Option<BytesPerSecond>,
>)
    ensures
        r == (match value {
            None => Ok::<Option<BytesPerSecond>, DbError>(None),
            Some(v) => if v >= 0 {
                Ok(Some(BytesPerSecond(v as u64)))
            } else {
                Err(DbError::IntegerOutOfRange { field, value: v as i128 })
            },
        }),
{
    match value {
        None => Ok(None),
        Some(v) => match i64_to_u64(field, v) {
            Ok(n) => Ok(Some(BytesPerSecond::new(n))),
            Err(e) => Err(e),
        },
    }
}

/// Reads a SQL integer that must be a non-zero `u16`.
pub fn i64_to_nonzero_u16(field: &'static str, value: i64) -> (r: DbResult<NonZeroU16>)
    ensures
        match r {
            Ok(n) => 0 < value <= u16::MAX && n@ == value,
            Err(e) => if 0 <= value <= u16::MAX {
                value == 0 && e == DbError::IntegerOutOfRange { field, value: 0 }
            } else {
                e == DbError::IntegerOutOfRange { field, value: value as i128 }
            },
        },
{
    if !(0 <= value && value <= u16::MAX as i64) {
        return Err(DbError::IntegerOutOfRange { field, value: value as i128 });
    }
    match NonZeroU16::new(value as u16) {
        Some(n) => Ok(n),
        None => Err(DbError::IntegerOutOfRange { field, value: 0 }),
    }
}

/// Reads an optional non-zero `u16`.
pub fn option_i64_to_nonzero_u16(field: &'static str, value: Option<i64>) -> (r: DbResult<
    Option<NonZeroU16>,
>)
    ensures
        match value {
            None => r == Ok::<Option<NonZeroU16>, DbError>(None),
            Some(v) => match r {
                Ok(n) => 0 < v <= u16::MAX && n is Some && n->0@ == v,
                Err(e) => if 0 <= v <= u16::MAX {
                    v == 0 && e == DbError::IntegerOutOfRange { field, value: 0 }
                } else {
                    e == DbError::IntegerOutOfRange { field, value: v as i128 }
                },
            },
        },
{
    match value {
        None => Ok(None),
        Some(v) => match i64_to_nonzero_u16(field, v) {
            Ok(n) => Ok(Some(n)),
            Err(e) => Err(e),
        },
    }
}

/// Reads a SQL boolean stored as 0 or 1.
pub fn i64_to_bool(field: &'static str, value: i64) -> (r: DbResult<bool>)
    ensures
        r == (if value == 0 {
            Ok::<bool, DbError>(false)
        } else if value == 1 {
            Ok(true)
        } else {
            Err(DbError::IntegerOutOfRange { field, value: value as i128 })
        }),
{
    match value {
        0 => Ok(false),
        1 => Ok(true),
        _ => Err(DbError::IntegerOutOfRange { field, value: value as i128 }),
    }
}

/// The identifier after the largest stored one (1 for an empty table).
pub fn next_download_id(max_id: Option<i64>) -> (r: DbResult<DownloadId>)
    ensures
        match max_id {
            Some(m) if m == i64::MAX => r == Err::<DownloadId, DbError>(
                DbError::IntegerOutOfRange { field: "downloads.id", value: i64::MAX as i128 },
            ),
            Some(m) => r == Ok::<DownloadId, DbError>(DownloadId((m + 1) as i64)),
            None => r == Ok::<DownloadId, DbError>(DownloadId(1)),
        },
{
    let current = match max_id {
        Some(m) => m,
        None => 0,
    };
    match current.checked_add(1) {
        Some(next) => Ok(DownloadId::new(next)),
        None => Err(DbError::IntegerOutOfRange { field: "downloads.id", value: i64::MAX as i128 }),
    }
}

/// The queue identifier after the largest non-reserved one, saturating at `i64::MAX`.
pub fn next_queue_id(max_id: Option<i64>) -> (r: QueueId)
    ensures
        r@ == match max_id {
            Some(m) => if m == i64::MAX {
                i64::MAX
            } else {
                (m + 1) as i64
            },
            None => 1,
        },
{
    let current = match max_id {
        Some(m) => m,
        None => 0,
    };
    if current == i64::MAX {
        QueueId::new(i64::MAX)
    } else {
        QueueId::new(current + 1)
    }
}

} // verus!
