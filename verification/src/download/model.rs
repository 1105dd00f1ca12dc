use vstd::prelude::*;

use std::collections::BTreeMap;

use crate::text::{i64_to_string, push_str, signed_decimal, str_eq};

verus! {

/// Stable identifier for a persisted download.
#[derive(Debug, Clone, Copy, PartialEq, Eq, PartialOrd, Ord, Hash, Structural)]
pub struct DownloadId(pub i64);

impl View for DownloadId {
    type V = i64;

    open spec fn view(&self) -> i64 {
        self.0
    }
}

impl DownloadId {
    /// Creates a download identifier from its persisted representation.
    #[must_use]
    pub fn new(value: i64) -> (r: Self)
        ensures
            r@ == value,
    {
        DownloadId(value)
    }

    /// Returns the persisted identifier value.
    #[must_use]
    pub fn get(self) -> (r: i64)
        ensures
            r == self@,
    {
        self.0
    }

    /// Decimal text of the identifier, as its `Display` shows it.
    pub fn to_string(&self) -> (s: String)
        ensures
            s@ == signed_decimal(self@ as int),
    {
        i64_to_string(self.0)
    }
}

impl From<i64> for DownloadId {
    fn from(value: i64) -> (r: Self) {
        DownloadId(value)
    }
}

impl vstd::std_specs::convert::FromSpecImpl<i64> for DownloadId {
    open spec fn obeys_from_spec() -> bool {
        true
    }

    open spec fn from_spec(v: i64) -> Self {
        DownloadId(v)
    }
}

impl From<DownloadId> for i64 {
    fn from(value: DownloadId) -> (r: Self) {
        value.0
    }
}

impl vstd::std_specs::convert::FromSpecImpl<DownloadId> for i64 {
    open spec fn obeys_from_spec() -> bool {
        true
    }

    open spec fn from_spec(v: DownloadId) -> Self {
        v.0
    }
}

/// Stable identifier for a persisted queue.
#[derive(Debug, Clone, Copy, PartialEq, Eq, PartialOrd, Ord, Hash, Structural)]
pub struct QueueId(pub i64);

impl View for QueueId {
    type V = i64;

    open spec fn view(&self) -> i64 {
        self.0
    }
}

impl QueueId {
    /// Creates a queue identifier from its persisted representation.
    #[must_use]
    pub fn new(value: i64) -> (r: Self)
        ensures
            r@ == value,
    {
        QueueId(value)
    }

    /// Returns the persisted identifier value.
    #[must_use]
    pub fn get(self) -> (r: i64)
        ensures
            r == self@,
    {
        self.0
    }

    /// The identifier reserved for the default main queue.
    pub fn main() -> (r: Self)
        ensures
            r@ == 0,
    {
        QueueId(0)
    }

    /// Decimal text of the identifier, as its `Display` shows it.
    pub fn to_string(&self) -> (s: String)
        ensures
            s@ == signed_decimal(self@ as int),
    {
        i64_to_string(self.0)
    }
}

impl From<i64> for QueueId {
    fn from(value: i64) -> (r: Self) {
        QueueId(value)
    }
}

impl vstd::std_specs::convert::FromSpecImpl<i64> for QueueId {
    open spec fn obeys_from_spec() -> bool {
        true
    }

    open spec fn from_spec(v: i64) -> Self {
        QueueId(v)
    }
}

impl From<QueueId> for i64 {
    fn from(value: QueueId) -> (r: Self) {
        value.0
    }
}

impl vstd::std_specs::convert::FromSpecImpl<QueueId> for i64 {
    open spec fn obeys_from_spec() -> bool {
        true
    }

    open spec fn from_spec(v: QueueId) -> Self {
        v.0
    }
}

/// Stable identifier for a persisted download part.
#[derive(Debug, Clone, Copy, PartialEq, Eq, PartialOrd, Ord, Hash, Structural)]
pub struct PartId(pub i64);

impl View for PartId {
    type V = i64;

    open spec fn view(&self) -> i64 {
        self.0
    }
}

impl PartId {
    /// Creates a part identifier from its persisted representation.
    #[must_use]
    pub fn new(value: i64) -> (r: Self)
        ensures
            r@ == value,
    {
        PartId(value)
    }

    /// Returns the persisted identifier value.
    #[must_use]
    pub fn get(self) -> (r: i64)
        ensures
            r == self@,
    {
        self.0
    }
}

impl From<i64> for PartId {
    fn from(value: i64) -> (r: Self) {
        PartId(value)
    }
}

impl vstd::std_specs::convert::FromSpecImpl<i64> for PartId {
    open spec fn obeys_from_spec() -> bool {
        true
    }

    open spec fn from_spec(v: i64) -> Self {
        PartId(v)
    }
}

impl From<PartId> for i64 {
    fn from(value: PartId) -> (r: Self) {
        value.0
    }
}

impl vstd::std_specs::convert::FromSpecImpl<PartId> for i64 {
    open spec fn obeys_from_spec() -> bool {
        true
    }

    open spec fn from_spec(v: PartId) -> Self {
        v.0
    }
}

/// Byte count value.
#[derive(Debug, Default, Clone, Copy, PartialEq, Eq, PartialOrd, Ord, Hash, Structural)]
pub struct Bytes(pub u64);

impl View for Bytes {
    type V = u64;

    open spec fn view(&self) -> u64 {
        self.0
    }
}

impl Bytes {
    /// Creates a byte count.
    #[must_use]
    pub fn new(value: u64) -> (r: Self)
        ensures
            r@ == value,
    {
        Bytes(value)
    }

    /// Returns the raw byte count.
    #[must_use]
    pub fn get(self) -> (r: u64)
        ensures
            r == self@,
    {
        self.0
    }

    /// Zero bytes.
    pub fn zero() -> (r: Self)
        ensures
            r@ == 0,
    {
        Bytes(0)
    }
}

impl From<u64> for Bytes {
    fn from(value: u64) -> (r: Self) {
        Bytes(value)
    }
}

impl vstd::std_specs::convert::FromSpecImpl<u64> for Bytes {
    open spec fn obeys_from_spec() -> bool {
        true
    }

    open spec fn from_spec(v: u64) -> Self {
        Bytes(v)
    }
}

impl From<Bytes> for u64 {
    fn from(value: Bytes) -> (r: Self) {
        value.0
    }
}

impl vstd::std_specs::convert::FromSpecImpl<Bytes> for u64 {
    open spec fn obeys_from_spec() -> bool {
        true
    }

    open spec fn from_spec(v: Bytes) -> Self {
        v.0
    }
}

/// Byte throughput value.
#[derive(Debug, Default, Clone, Copy, PartialEq, Eq, PartialOrd, Ord, Hash, Structural)]
pub struct BytesPerSecond(pub u64);

impl View for BytesPerSecond {
    type V = u64;

    open spec fn view(&self) -> u64 {
        self.0
    }
}

impl BytesPerSecond {
    /// Creates a throughput value in bytes per second.
    #[must_use]
    pub fn new(value: u64) -> (r: Self)
        ensures
            r@ == value,
    {
        BytesPerSecond(value)
    }

    /// Returns the raw bytes-per-second value.
    #[must_use]
    pub fn get(self) -> (r: u64)
        ensures
            r == self@,
    {
        self.0
    }

    /// No throughput.
    pub fn zero() -> (r: Self)
        ensures
            r@ == 0,
    {
        BytesPerSecond(0)
    }
}

impl From<u64> for BytesPerSecond {
    fn from(value: u64) -> (r: Self) {
        BytesPerSecond(value)
    }
}

impl vstd::std_specs::convert::FromSpecImpl<u64> for BytesPerSecond {
    open spec fn obeys_from_spec() -> bool {
        true
    }

    open spec fn from_spec(v: u64) -> Self {
        BytesPerSecond(v)
    }
}

impl From<BytesPerSecond> for u64 {
    fn from(value: BytesPerSecond) -> (r: Self) {
        value.0
    }
}

impl vstd::std_specs::convert::FromSpecImpl<BytesPerSecond> for u64 {
    open spec fn obeys_from_spec() -> bool {
        true
    }

    open spec fn from_spec(v: BytesPerSecond) -> Self {
        v.0
    }
}

/// A `u16` count that is never zero.
#[derive(Debug, Clone, Copy, PartialEq, Eq, PartialOrd, Ord, Hash)]
pub struct NonZeroU16(u16);

impl View for NonZeroU16 {
    type V = u16;

    closed spec fn view(&self) -> u16 {
        self.0
    }
}

impl NonZeroU16 {
    #[verifier::type_invariant]
    spec fn non_zero(self) -> bool {
        self.0 != 0
    }

    /// The count `value`, or `None` when it is zero.
    pub fn new(value: u16) -> (r: Option<Self>)
        ensures
            match r {
                Some(n) => value != 0 && n@ == value,
                None => value == 0,
            },
    {
        if value == 0 {
            None
        } else {
            Some(NonZeroU16(value))
        }
    }

    /// Two counts with the same value are the same count.
    pub proof fn lemma_view_injective(a: Self, b: Self)
        ensures
            a@ == b@ ==> a == b,
    {
    }

    /// The count, which is never zero.
    pub fn get(self) -> (r: u16)
        ensures
            r == self@,
            r != 0,
    {
        proof {
            use_type_invariant(&self);
        }
        self.0
    }
}

/// A `u32` count that is never zero.
#[derive(Debug, Clone, Copy, PartialEq, Eq, PartialOrd, Ord, Hash)]
pub struct NonZeroU32(u32);

impl View for NonZeroU32 {
    type V = u32;

    closed spec fn view(&self) -> u32 {
        self.0
    }
}

impl NonZeroU32 {
    #[verifier::type_invariant]
    spec fn non_zero(self) -> bool {
        self.0 != 0
    }

    /// The count `value`, or `None` when it is zero.
    pub fn new(value: u32) -> (r: Option<Self>)
        ensures
            match r {
                Some(n) => value != 0 && n@ == value,
                None => value == 0,
            },
    {
        if value == 0 {
            None
        } else {
            Some(NonZeroU32(value))
        }
    }

    /// The count, which is never zero.
    pub fn get(self) -> (r: u32)
        ensures
            r == self@,
            r != 0,
    {
        proof {
            use_type_invariant(&self);
        }
        self.0
    }
}

/// Error returned when a persisted enum value is unknown.
#[derive(Debug, Clone, PartialEq, Eq)]
pub struct ParseDomainEnumError {
    kind: &'static str,
    value: String,
}

impl ParseDomainEnumError {
    /// Name of the enum that was parsed.
    pub closed spec fn kind_view(&self) -> Seq<char> {
        self.kind@
    }

    /// The rejected text.
    pub closed spec fn value_view(&self) -> Seq<char> {
        self.value@
    }

    /// The error message: "unknown {kind} value `{value}`".
    pub open spec fn message(&self) -> Seq<char> {
        "unknown "@ + self.kind_view() + " value `"@ + self.value_view() + "`"@
    }

    #[must_use]
    fn new(kind: &'static str, value: &str) -> (r: Self)
        ensures
            r.kind_view() == kind@,
            r.value_view() == value@,
    {
        let mut owned = String::new();
        push_str(&mut owned, value);
        ParseDomainEnumError { kind, value: owned }
    }

    /// The error message, as `Display` shows it.
    pub fn to_string(&self) -> (r: String)
        ensures
            r@ == self.message(),
    {
        let mut r = String::new();
        push_str(&mut r, "unknown ");
        push_str(&mut r, self.kind);
        push_str(&mut r, " value `");
        push_str(&mut r, self.value.as_str());
        push_str(&mut r, "`");
        r
    }
}

/// Type of download handled by the engine registry.
#[derive(Debug, Clone, Copy, PartialEq, Eq, Hash, Structural)]
pub enum DownloadKind {
    Http,
    Hls,
    Aria2,
}

impl DownloadKind {
    /// The stable persisted text of each variant.
    pub open spec fn persisted(self) -> Seq<char> {
        match self {
            DownloadKind::Http => "http"@,
            DownloadKind::Hls => "hls"@,
            DownloadKind::Aria2 => "aria2"@,
        }
    }

    /// The variant whose persisted text is `s`, if any.
    pub open spec fn from_persisted(s: Seq<char>) -> Option<Self> {
        if s == "http"@ {
            Some(DownloadKind::Http)
        } else if s == "hls"@ {
            Some(DownloadKind::Hls)
        } else if s == "aria2"@ {
            Some(DownloadKind::Aria2)
        } else {
            None
        }
    }

    /// Returns the stable persisted string value.
    #[must_use]
    pub fn as_str(self) -> (r: &'static str)
        ensures
            r@ == self.persisted(),
    {
        match self {
            DownloadKind::Http => "http",
            DownloadKind::Hls => "hls",
            DownloadKind::Aria2 => "aria2",
        }
    }

    /// The persisted text as an owned string, as `Display` shows it.
    pub fn to_string(&self) -> (r: String)
        ensures
            r@ == self.persisted(),
    {
        let mut r = String::new();
        push_str(&mut r, self.as_str());
        r
    }

    /// Parses a persisted value.
    pub fn from_str(value: &str) -> (r: Result<Self, ParseDomainEnumError>)
        ensures
            match r {
                Ok(v) => Self::from_persisted(value@) == Some(v),
                Err(e) => Self::from_persisted(value@) is None && e.kind_view() == "DownloadKind"@
                    && e.value_view() == value@,
            },
    {
        if str_eq(value, "http") {
            return Ok(DownloadKind::Http);
        }
        if str_eq(value, "hls") {
            return Ok(DownloadKind::Hls);
        }
        if str_eq(value, "aria2") {
            return Ok(DownloadKind::Aria2);
        }
        Err(ParseDomainEnumError::new("DownloadKind", value))
    }

    /// Parses a persisted value, as `TryFrom<&str>` does.
    pub fn try_from(value: &str) -> (r: Result<Self, ParseDomainEnumError>)
        ensures
            match r {
                Ok(v) => Self::from_persisted(value@) == Some(v),
                Err(e) => Self::from_persisted(value@) is None && e.kind_view() == "DownloadKind"@
                    && e.value_view() == value@,
            },
    {
        Self::from_str(value)
    }

    /// Reading back the persisted text of a variant gives the variant.
    pub proof fn lemma_round_trip(self)
        ensures
            Self::from_persisted(self.persisted()) == Some(self),
    {
        reveal_strlit("http");
        reveal_strlit("hls");
        reveal_strlit("aria2");
        match self {
            DownloadKind::Http => {
            },
            DownloadKind::Hls => {
                assert("http"@.len() != "hls"@.len());
            },
            DownloadKind::Aria2 => {
                assert("http"@.len() != "aria2"@.len());
                assert("hls"@.len() != "aria2"@.len());
            },
        }
    }
}

/// Durable lifecycle state for a download item.
#[derive(Debug, Clone, Copy, PartialEq, Eq, Hash, Structural)]
pub enum DownloadStatus {
    Added,
    Queued,
    Downloading,
    Paused,
    Retrying,
    PreparingFile,
    Completed,
    Error,
    Removed,
}

impl DownloadStatus {
    /// The stable persisted text of each variant.
    pub open spec fn persisted(self) -> Seq<char> {
        match self {
            DownloadStatus::Added => "added"@,
            DownloadStatus::Queued => "queued"@,
            DownloadStatus::Downloading => "downloading"@,
            DownloadStatus::Paused => "paused"@,
            DownloadStatus::Retrying => "retrying"@,
            DownloadStatus::PreparingFile => "preparing_file"@,
            DownloadStatus::Completed => "completed"@,
            DownloadStatus::Error => "error"@,
            DownloadStatus::Removed => "removed"@,
        }
    }

    /// The variant whose persisted text is `s`, if any.
    pub open spec fn from_persisted(s: Seq<char>) -> Option<Self> {
        if s == "added"@ {
            Some(DownloadStatus::Added)
        } else if s == "queued"@ {
            Some(DownloadStatus::Queued)
        } else if s == "downloading"@ {
            Some(DownloadStatus::Downloading)
        } else if s == "paused"@ {
            Some(DownloadStatus::Paused)
        } else if s == "retrying"@ {
            Some(DownloadStatus::Retrying)
        } else if s == "preparing_file"@ {
            Some(DownloadStatus::PreparingFile)
        } else if s == "completed"@ {
            Some(DownloadStatus::Completed)
        } else if s == "error"@ {
            Some(DownloadStatus::Error)
        } else if s == "removed"@ {
            Some(DownloadStatus::Removed)
        } else {
            None
        }
    }

    /// Returns the stable persisted string value.
    #[must_use]
    pub fn as_str(self) -> (r: &'static str)
        ensures
            r@ == self.persisted(),
    {
        match self {
            DownloadStatus::Added => "added",
            DownloadStatus::Queued => "queued",
            DownloadStatus::Downloading => "downloading",
            DownloadStatus::Paused => "paused",
            DownloadStatus::Retrying => "retrying",
            DownloadStatus::PreparingFile => "preparing_file",
            DownloadStatus::Completed => "completed",
            DownloadStatus::Error => "error",
            DownloadStatus::Removed => "removed",
        }
    }

    /// The persisted text as an owned string, as `Display` shows it.
    pub fn to_string(&self) -> (r: String)
        ensures
            r@ == self.persisted(),
    {
        let mut r = String::new();
        push_str(&mut r, self.as_str());
        r
    }

    /// Parses a persisted value.
    pub fn from_str(value: &str) -> (r: Result<Self, ParseDomainEnumError>)
        ensures
            match r {
                Ok(v) => Self::from_persisted(value@) == Some(v),
                Err(e) => Self::from_persisted(value@) is None && e.kind_view() == "DownloadStatus"@
                    && e.value_view() == value@,
            },
    {
        if str_eq(value, "added") {
            return Ok(DownloadStatus::Added);
        }
        if str_eq(value, "queued") {
            return Ok(DownloadStatus::Queued);
        }
        if str_eq(value, "downloading") {
            return Ok(DownloadStatus::Downloading);
        }
        if str_eq(value, "paused") {
            return Ok(DownloadStatus::Paused);
        }
        if str_eq(value, "retrying") {
            return Ok(DownloadStatus::Retrying);
        }
        if str_eq(value, "preparing_file") {
            return Ok(DownloadStatus::PreparingFile);
        }
        if str_eq(value, "completed") {
            return Ok(DownloadStatus::Completed);
        }
        if str_eq(value, "error") {
            return Ok(DownloadStatus::Error);
        }
        if str_eq(value, "removed") {
            return Ok(DownloadStatus::Removed);
        }
        Err(ParseDomainEnumError::new("DownloadStatus", value))
    }

    /// Parses a persisted value, as `TryFrom<&str>` does.
    pub fn try_from(value: &str) -> (r: Result<Self, ParseDomainEnumError>)
        ensures
            match r {
                Ok(v) => Self::from_persisted(value@) == Some(v),
                Err(e) => Self::from_persisted(value@) is None && e.kind_view() == "DownloadStatus"@
                    && e.value_view() == value@,
            },
    {
        Self::from_str(value)
    }

    /// Reading back the persisted text of a variant gives the variant.
    pub proof fn lemma_round_trip(self)
        ensures
            Self::from_persisted(self.persisted()) == Some(self),
    {
        reveal_strlit("added");
        reveal_strlit("queued");
        reveal_strlit("downloading");
        reveal_strlit("paused");
        reveal_strlit("retrying");
        reveal_strlit("preparing_file");
        reveal_strlit("completed");
        reveal_strlit("error");
        reveal_strlit("removed");
        match self {
            DownloadStatus::Added => {
            },
            DownloadStatus::Queued => {
                assert("added"@.len() != "queued"@.len());
            },
            DownloadStatus::Downloading => {
                assert("added"@.len() != "downloading"@.len());
                assert("queued"@.len() != "downloading"@.len());
            },
            DownloadStatus::Paused => {
                assert("added"@.len() != "paused"@.len());
                assert("queued"@[0] != "paused"@[0]);
                assert("downloading"@.len() != "paused"@.len());
            },
            DownloadStatus::Retrying => {
                assert("added"@.len() != "retrying"@.len());
                assert("queued"@.len() != "retrying"@.len());
                assert("downloading"@.len() != "retrying"@.len());
                assert("paused"@.len() != "retrying"@.len());
            },
            DownloadStatus::PreparingFile => {
                assert("added"@.len() != "preparing_file"@.len());
                assert("queued"@.len() != "preparing_file"@.len());
                assert("downloading"@.len() != "preparing_file"@.len());
                assert("paused"@.len() != "preparing_file"@.len());
                assert("retrying"@.len() != "preparing_file"@.len());
            },
            DownloadStatus::Completed => {
                assert("added"@.len() != "completed"@.len());
                assert("queued"@.len() != "completed"@.len());
                assert("downloading"@.len() != "completed"@.len());
                assert("paused"@.len() != "completed"@.len());
                assert("retrying"@.len() != "completed"@.len());
                assert("preparing_file"@.len() != "completed"@.len());
            },
            DownloadStatus::Error => {
                assert("added"@[0] != "error"@[0]);
                assert("queued"@.len() != "error"@.len());
                assert("downloading"@.len() != "error"@.len());
                assert("paused"@.len() != "error"@.len());
                assert("retrying"@.len() != "error"@.len());
                assert("preparing_file"@.len() != "error"@.len());
                assert("completed"@.len() != "error"@.len());
            },
            DownloadStatus::Removed => {
                assert("added"@.len() != "removed"@.len());
                assert("queued"@.len() != "removed"@.len());
                assert("downloading"@.len() != "removed"@.len());
                assert("paused"@.len() != "removed"@.len());
                assert("retrying"@.len() != "removed"@.len());
                assert("preparing_file"@.len() != "removed"@.len());
                assert("completed"@.len() != "removed"@.len());
                assert("error"@.len() != "removed"@.len());
            },
        }
    }
}

/// Durable lifecycle state for a download part.
#[derive(Debug, Clone, Copy, PartialEq, Eq, Hash, Structural)]
pub enum PartStatus {
    Idle,
    Connecting,
    Receiving,
    Completed,
    Canceled,
    Error,
}

impl PartStatus {
    /// The stable persisted text of each variant.
    pub open spec fn persisted(self) -> Seq<char> {
        match self {
            PartStatus::Idle => "idle"@,
            PartStatus::Connecting => "connecting"@,
            PartStatus::Receiving => "receiving"@,
            PartStatus::Completed => "completed"@,
            PartStatus::Canceled => "canceled"@,
            PartStatus::Error => "error"@,
        }
    }

    /// The variant whose persisted text is `s`, if any.
    pub open spec fn from_persisted(s: Seq<char>) -> Option<Self> {
        if s == "idle"@ {
            Some(PartStatus::Idle)
        } else if s == "connecting"@ {
            Some(PartStatus::Connecting)
        } else if s == "receiving"@ {
            Some(PartStatus::Receiving)
        } else if s == "completed"@ {
            Some(PartStatus::Completed)
        } else if s == "canceled"@ {
            Some(PartStatus::Canceled)
        } else if s == "error"@ {
            Some(PartStatus::Error)
        } else {
            None
        }
    }

    /// Returns the stable persisted string value.
    #[must_use]
    pub fn as_str(self) -> (r: &'static str)
        ensures
            r@ == self.persisted(),
    {
        match self {
            PartStatus::Idle => "idle",
            PartStatus::Connecting => "connecting",
            PartStatus::Receiving => "receiving",
            PartStatus::Completed => "completed",
            PartStatus::Canceled => "canceled",
            PartStatus::Error => "error",
        }
    }

    /// The persisted text as an owned string, as `Display` shows it.
    pub fn to_string(&self) -> (r: String)
        ensures
            r@ == self.persisted(),
    {
        let mut r = String::new();
        push_str(&mut r, self.as_str());
        r
    }

    /// Parses a persisted value.
    pub fn from_str(value: &str) -> (r: Result<Self, ParseDomainEnumError>)
        ensures
            match r {
                Ok(v) => Self::from_persisted(value@) == Some(v),
                Err(e) => Self::from_persisted(value@) is None && e.kind_view() == "PartStatus"@
                    && e.value_view() == value@,
            },
    {
        if str_eq(value, "idle") {
            return Ok(PartStatus::Idle);
        }
        if str_eq(value, "connecting") {
            return Ok(PartStatus::Connecting);
        }
        if str_eq(value, "receiving") {
            return Ok(PartStatus::Receiving);
        }
        if str_eq(value, "completed") {
            return Ok(PartStatus::Completed);
        }
        if str_eq(value, "canceled") {
            return Ok(PartStatus::Canceled);
        }
        if str_eq(value, "error") {
            return Ok(PartStatus::Error);
        }
        Err(ParseDomainEnumError::new("PartStatus", value))
    }

    /// Parses a persisted value, as `TryFrom<&str>` does.
    pub fn try_from(value: &str) -> (r: Result<Self, ParseDomainEnumError>)
        ensures
            match r {
                Ok(v) => Self::from_persisted(value@) == Some(v),
                Err(e) => Self::from_persisted(value@) is None && e.kind_view() == "PartStatus"@
                    && e.value_view() == value@,
            },
    {
        Self::from_str(value)
    }

    /// Reading back the persisted text of a variant gives the variant.
    pub proof fn lemma_round_trip(self)
        ensures
            Self::from_persisted(self.persisted()) == Some(self),
    {
        reveal_strlit("idle");
        reveal_strlit("connecting");
        reveal_strlit("receiving");
        reveal_strlit("completed");
        reveal_strlit("canceled");
        reveal_strlit("error");
        match self {
            PartStatus::Idle => {
            },
            PartStatus::Connecting => {
                assert("idle"@.len() != "connecting"@.len());
            },
            PartStatus::Receiving => {
                assert("idle"@.len() != "receiving"@.len());
                assert("connecting"@.len() != "receiving"@.len());
            },
            PartStatus::Completed => {
                assert("idle"@.len() != "completed"@.len());
                assert("connecting"@.len() != "completed"@.len());
                assert("receiving"@[0] != "completed"@[0]);
            },
            PartStatus::Canceled => {
                assert("idle"@.len() != "canceled"@.len());
                assert("connecting"@.len() != "canceled"@.len());
                assert("receiving"@.len() != "canceled"@.len());
                assert("completed"@.len() != "canceled"@.len());
            },
            PartStatus::Error => {
                assert("idle"@.len() != "error"@.len());
                assert("connecting"@.len() != "error"@.len());
                assert("receiving"@.len() != "error"@.len());
                assert("completed"@.len() != "error"@.len());
                assert("canceled"@.len() != "error"@.len());
            },
        }
    }
}

/// Current resume capability known for a remote resource.
#[derive(Debug, Clone, Copy, PartialEq, Eq, Hash, Structural)]
pub enum ResumeSupport {
    Unknown,
    Supported,
    Unsupported,
}

impl ResumeSupport {
    /// The stable persisted text of each variant.
    pub open spec fn persisted(self) -> Seq<char> {
        match self {
            ResumeSupport::Unknown => "unknown"@,
            ResumeSupport::Supported => "supported"@,
            ResumeSupport::Unsupported => "unsupported"@,
        }
    }

    /// The variant whose persisted text is `s`, if any.
    pub open spec fn from_persisted(s: Seq<char>) -> Option<Self> {
        if s == "unknown"@ {
            Some(ResumeSupport::Unknown)
        } else if s == "supported"@ {
            Some(ResumeSupport::Supported)
        } else if s == "unsupported"@ {
            Some(ResumeSupport::Unsupported)
        } else {
            None
        }
    }

    /// Returns the stable persisted string value.
    #[must_use]
    pub fn as_str(self) -> (r: &'static str)
        ensures
            r@ == self.persisted(),
    {
        match self {
            ResumeSupport::Unknown => "unknown",
            ResumeSupport::Supported => "supported",
            ResumeSupport::Unsupported => "unsupported",
        }
    }

    /// The persisted text as an owned string, as `Display` shows it.
    pub fn to_string(&self) -> (r: String)
        ensures
            r@ == self.persisted(),
    {
        let mut r = String::new();
        push_str(&mut r, self.as_str());
        r
    }

    /// Parses a persisted value.
    pub fn from_str(value: &str) -> (r: Result<Self, ParseDomainEnumError>)
        ensures
            match r {
                Ok(v) => Self::from_persisted(value@) == Some(v),
                Err(e) => Self::from_persisted(value@) is None && e.kind_view() == "ResumeSupport"@
                    && e.value_view() == value@,
            },
    {
        if str_eq(value, "unknown") {
            return Ok(ResumeSupport::Unknown);
        }
        if str_eq(value, "supported") {
            return Ok(ResumeSupport::Supported);
        }
        if str_eq(value, "unsupported") {
            return Ok(ResumeSupport::Unsupported);
        }
        Err(ParseDomainEnumError::new("ResumeSupport", value))
    }

    /// Parses a persisted value, as `TryFrom<&str>` does.
    pub fn try_from(value: &str) -> (r: Result<Self, ParseDomainEnumError>)
        ensures
            match r {
                Ok(v) => Self::from_persisted(value@) == Some(v),
                Err(e) => Self::from_persisted(value@) is None && e.kind_view() == "ResumeSupport"@
                    && e.value_view() == value@,
            },
    {
        Self::from_str(value)
    }

    /// Reading back the persisted text of a variant gives the variant.
    pub proof fn lemma_round_trip(self)
        ensures
            Self::from_persisted(self.persisted()) == Some(self),
    {
        reveal_strlit("unknown");
        reveal_strlit("supported");
        reveal_strlit("unsupported");
        match self {
            ResumeSupport::Unknown => {
            },
            ResumeSupport::Supported => {
                assert("unknown"@.len() != "supported"@.len());
            },
            ResumeSupport::Unsupported => {
                assert("unknown"@.len() != "unsupported"@.len());
                assert("supported"@.len() != "unsupported"@.len());
            },
        }
    }
}

/// Persisted failure category for a download.
#[derive(Debug, Clone, Copy, PartialEq, Eq, Hash, Structural)]
pub enum FailureKind {
    Network,
    Server,
    Validation,
    Disk,
    Canceled,
    NoSpace,
    TooManyRetries,
}

impl FailureKind {
    /// The stable persisted text of each variant.
    pub open spec fn persisted(self) -> Seq<char> {
        match self {
            FailureKind::Network => "network"@,
            FailureKind::Server => "server"@,
            FailureKind::Validation => "validation"@,
            FailureKind::Disk => "disk"@,
            FailureKind::Canceled => "canceled"@,
            FailureKind::NoSpace => "no_space"@,
            FailureKind::TooManyRetries => "too_many_retries"@,
        }
    }

    /// The variant whose persisted text is `s`, if any.
    pub open spec fn from_persisted(s: Seq<char>) -> Option<Self> {
        if s == "network"@ {
            Some(FailureKind::Network)
        } else if s == "server"@ {
            Some(FailureKind::Server)
        } else if s == "validation"@ {
            Some(FailureKind::Validation)
        } else if s == "disk"@ {
            Some(FailureKind::Disk)
        } else if s == "canceled"@ {
            Some(FailureKind::Canceled)
        } else if s == "no_space"@ {
            Some(FailureKind::NoSpace)
        } else if s == "too_many_retries"@ {
            Some(FailureKind::TooManyRetries)
        } else {
            None
        }
    }

    /// Returns the stable persisted string value.
    #[must_use]
    pub fn as_str(self) -> (r: &'static str)
        ensures
            r@ == self.persisted(),
    {
        match self {
            FailureKind::Network => "network",
            FailureKind::Server => "server",
            FailureKind::Validation => "validation",
            FailureKind::Disk => "disk",
            FailureKind::Canceled => "canceled",
            FailureKind::NoSpace => "no_space",
            FailureKind::TooManyRetries => "too_many_retries",
        }
    }

    /// The persisted text as an owned string, as `Display` shows it.
    pub fn to_string(&self) -> (r: String)
        ensures
            r@ == self.persisted(),
    {
        let mut r = String::new();
        push_str(&mut r, self.as_str());
        r
    }

    /// Parses a persisted value.
    pub fn from_str(value: &str) -> (r: Result<Self, ParseDomainEnumError>)
        ensures
            match r {
                Ok(v) => Self::from_persisted(value@) == Some(v),
                Err(e) => Self::from_persisted(value@) is None && e.kind_view() == "FailureKind"@
                    && e.value_view() == value@,
            },
    {
        if str_eq(value, "network") {
            return Ok(FailureKind::Network);
        }
        if str_eq(value, "server") {
            return Ok(FailureKind::Server);
        }
        if str_eq(value, "validation") {
            return Ok(FailureKind::Validation);
        }
        if str_eq(value, "disk") {
            return Ok(FailureKind::Disk);
        }
        if str_eq(value, "canceled") {
            return Ok(FailureKind::Canceled);
        }
        if str_eq(value, "no_space") {
            return Ok(FailureKind::NoSpace);
        }
        if str_eq(value, "too_many_retries") {
            return Ok(FailureKind::TooManyRetries);
        }
        Err(ParseDomainEnumError::new("FailureKind", value))
    }

    /// Parses a persisted value, as `TryFrom<&str>` does.
    pub fn try_from(value: &str) -> (r: Result<Self, ParseDomainEnumError>)
        ensures
            match r {
                Ok(v) => Self::from_persisted(value@) == Some(v),
                Err(e) => Self::from_persisted(value@) is None && e.kind_view() == "FailureKind"@
                    && e.value_view() == value@,
            },
    {
        Self::from_str(value)
    }

    /// Reading back the persisted text of a variant gives the variant.
    pub proof fn lemma_round_trip(self)
        ensures
            Self::from_persisted(self.persisted()) == Some(self),
    {
        reveal_strlit("network");
        reveal_strlit("server");
        reveal_strlit("validation");
        reveal_strlit("disk");
        reveal_strlit("canceled");
        reveal_strlit("no_space");
        reveal_strlit("too_many_retries");
        match self {
            FailureKind::Network => {
            },
            FailureKind::Server => {
                assert("network"@.len() != "server"@.len());
            },
            FailureKind::Validation => {
                assert("network"@.len() != "validation"@.len());
                assert("server"@.len() != "validation"@.len());
            },
            FailureKind::Disk => {
                assert("network"@.len() != "disk"@.len());
                assert("server"@.len() != "disk"@.len());
                assert("validation"@.len() != "disk"@.len());
            },
            FailureKind::Canceled => {
                assert("network"@.len() != "canceled"@.len());
                assert("server"@.len() != "canceled"@.len());
                assert("validation"@.len() != "canceled"@.len());
                assert("disk"@.len() != "canceled"@.len());
            },
            FailureKind::NoSpace => {
                assert("network"@.len() != "no_space"@.len());
                assert("server"@.len() != "no_space"@.len());
                assert("validation"@.len() != "no_space"@.len());
                assert("disk"@.len() != "no_space"@.len());
                assert("canceled"@[0] != "no_space"@[0]);
            },
            FailureKind::TooManyRetries => {
                assert("network"@.len() != "too_many_retries"@.len());
                assert("server"@.len() != "too_many_retries"@.len());
                assert("validation"@.len() != "too_many_retries"@.len());
                assert("disk"@.len() != "too_many_retries"@.len());
                assert("canceled"@.len() != "too_many_retries"@.len());
                assert("no_space"@.len() != "too_many_retries"@.len());
            },
        }
    }
}

/// Persisted failure details for a download.
#[derive(Debug, PartialEq, Eq)]
pub struct DownloadFailure {
    /// Machine-readable failure category.
    pub kind: FailureKind,
    /// Human-readable failure message suitable for logs and UI.
    pub message: String,
}

impl Clone for DownloadFailure {
    fn clone(&self) -> (r: Self)
        ensures
            r == *self,
    {
        DownloadFailure { kind: self.kind, message: self.message.clone() }
    }
}

/// Persisted download metadata and aggregate progress.
#[derive(Debug, Clone, PartialEq, Eq)]
pub struct DownloadItem {
    /// Stable persisted identifier.
    pub id: DownloadId,
    /// Download implementation kind.
    pub kind: DownloadKind,
    /// Primary source URL.
    pub url: String,
    /// Optional page URL where the download was discovered.
    pub download_page: Option<String>,
    /// Request headers captured for authenticated or browser-originated downloads.
    pub headers: BTreeMap<String, String>,
    /// Final file name without parent folder.
    pub file_name: String,
    /// Destination folder, as UTF-8 path text.
    pub folder: String,
    /// Durable lifecycle state.
    pub status: DownloadStatus,
    /// Known total size, if available.
    pub total_bytes: Option<Bytes>,
    /// Aggregate downloaded bytes.
    pub downloaded_bytes: Bytes,
    /// Last validated ETag.
    pub etag: Option<String>,
    /// Last validated Last-Modified value.
    pub last_modified: Option<String>,
    /// Preferred worker count for ranged downloads.
    pub preferred_connections: Option<NonZeroU16>,
    /// Optional per-download throughput limit.
    pub speed_limit: Option<BytesPerSecond>,
    /// Last persisted failure.
    pub failure: Option<DownloadFailure>,
    /// Creation timestamp as Unix milliseconds.
    pub created_at: i64,
    /// Last start timestamp as Unix milliseconds.
    pub started_at: Option<i64>,
    /// Completion timestamp as Unix milliseconds.
    pub completed_at: Option<i64>,
    /// Last update timestamp as Unix milliseconds.
    pub updated_at: i64,
}

/// Persisted state for one ranged or blind download part.
#[derive(Debug, Clone, Copy, PartialEq, Eq, Structural)]
pub struct DownloadPart {
    /// Stable persisted part identifier.
    pub id: PartId,
    /// Parent download identifier.
    pub download_id: DownloadId,
    /// Stable part order within a download.
    pub index: u32,
    /// Inclusive starting byte offset.
    pub start_byte: Bytes,
    /// Inclusive ending byte offset, when known.
    pub end_byte: Option<Bytes>,
    /// Next byte offset to write.
    pub current_byte: Bytes,
    /// Durable lifecycle state.
    pub status: PartStatus,
    /// Number of retries already attempted.
    pub retry_count: u32,
    /// Last update timestamp as Unix milliseconds.
    pub updated_at: i64,
}

/// Global download defaults.
#[derive(Debug, Clone, PartialEq, Eq)]
pub struct DownloadConfig {
    /// Default worker count for ranged downloads.
    pub default_connections: NonZeroU16,
    /// Whether downloads without an explicit connection count use adaptive ranged workers.
    pub adaptive_connections_enabled: bool,
    /// Minimum adaptive ranged worker count.
    pub min_connections: NonZeroU16,
    /// Maximum ranged worker count, including explicit custom values.
    pub max_connections: NonZeroU16,
    /// Probe interval for adaptive connection decisions, in milliseconds.
    pub connection_probe_interval_ms: u64,
    /// Required aggregate throughput gain percentage before probing more workers.
    pub connection_gain_threshold: u8,
    /// Minimum bytes per ranged part.
    pub min_part_size: Bytes,
    /// Maximum retries per failing part or job stage.
    pub max_retries: NonZeroU32,
    /// Extension appended to incomplete files.
    pub incomplete_extension: String,
    /// Whether sparse file allocation may be used when supported safely.
    pub sparse_file_allocation: bool,
    /// Optional global throughput limit.
    pub global_speed_limit: Option<BytesPerSecond>,
}

/// Extension appended to incomplete files by default.
pub open spec fn default_incomplete_extension() -> Seq<char> {
    ".raijin-part"@
}

impl Default for DownloadConfig {
    fn default() -> (r: Self)
        ensures
            r.default_connections@ == 8,
            r.adaptive_connections_enabled,
            r.min_connections@ == 1,
            r.max_connections@ == 16,
            r.connection_probe_interval_ms == 1000,
            r.connection_gain_threshold == 10,
            r.min_part_size@ == 4 * 1024 * 1024,
            r.max_retries@ == 3,
            r.incomplete_extension@ == default_incomplete_extension(),
            !r.sparse_file_allocation,
            r.global_speed_limit is None,
    {
        let mut incomplete_extension = String::new();
        push_str(&mut incomplete_extension, ".raijin-part");
        DownloadConfig {
            default_connections: non_zero_u16(8),
            adaptive_connections_enabled: true,
            min_connections: non_zero_u16(1),
            max_connections: non_zero_u16(16),
            connection_probe_interval_ms: 1_000,
            connection_gain_threshold: 10,
            min_part_size: Bytes::new(4 * 1024 * 1024),
            max_retries: non_zero_u32(3),
            incomplete_extension,
            sparse_file_allocation: false,
            global_speed_limit: None,
        }
    }
}

/// Aggregated progress for events and monitor projections.
#[derive(Debug, Clone, Copy, PartialEq, Eq, Structural)]
pub struct DownloadProgress {
    /// Downloaded bytes across all parts.
    pub downloaded_bytes: Bytes,
    /// Known total size, if available.
    pub total_bytes: Option<Bytes>,
    /// Current aggregate speed.
    pub speed: BytesPerSecond,
    /// Estimated seconds until completion, if computable.
    pub eta_seconds: Option<u64>,
    /// Number of active part workers.
    pub active_part_count: u16,
}

fn non_zero_u16(value: u16) -> (r: NonZeroU16)
    requires
        value != 0,
    ensures
        r@ == value,
{
    match NonZeroU16::new(value) {
        Some(n) => n,
        None => NonZeroU16::new(1).unwrap(),
    }
}

fn non_zero_u32(value: u32) -> (r: NonZeroU32)
    requires
        value != 0,
    ensures
        r@ == value,
{
    match NonZeroU32::new(value) {
        Some(n) => n,
        None => NonZeroU32::new(1).unwrap(),
    }
}

} // verus!
