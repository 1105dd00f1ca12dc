use vstd::prelude::*;

use crate::text::push_str;

verus! {

/// Platform helper errors. File system errors are carried as their messages, and a
/// path that is not UTF-8 as its lossy rendering.
#[derive(Debug, Clone, PartialEq, Eq)]
pub enum PlatformError {
    /// Current process has no usable working or home data directory.
    DataDirectoryUnavailable,
    /// Filesystem operation failed.
    Io(String),
    /// Path cannot be represented as UTF-8 for SQLite URL use.
    NonUtf8Path(String),
}

/// Result type for platform helpers.
pub type PlatformResult<T> = Result<T, PlatformError>;

impl PlatformError {
    /// The error message, as `Display` shows it.
    pub open spec fn message(&self) -> Seq<char> {
        match self {
            PlatformError::DataDirectoryUnavailable => "no usable application data directory found"@,
            PlatformError::Io(m) => m@,
            PlatformError::NonUtf8Path(p) => "path is not valid UTF-8: "@ + p@,
        }
    }

    /// The error message, as `Display` shows it.
    pub fn to_string(&self) -> (r: String)
        ensures
            r@ == self.message(),
    {
        let mut r = String::new();
        match self {
            PlatformError::DataDirectoryUnavailable => push_str(
                &mut r,
                "no usable application data directory found",
            ),
            PlatformError::Io(m) => push_str(&mut r, m.as_str()),
            PlatformError::NonUtf8Path(p) => {
                push_str(&mut r, "path is not valid UTF-8: ");
                push_str(&mut r, p.as_str());
            },
        }
        r
    }
}

/// SQLite URL of a database file, given its path as UTF-8 text.
pub fn sqlite_url(path: &str) -> (r: String)
    ensures
        r@ == "sqlite://"@ + path@,
{
    let mut r = String::new();
    push_str(&mut r, "sqlite://");
    push_str(&mut r, path);
    r
}

/// Index of the first candidate that is set: folders are looked up in order of
/// preference, and the first one that is available is used.
pub fn first_present<T>(candidates: &[Option<T>]) -> (r: Option<usize>)
    ensures
        match r {
            Some(i) => {
                &&& i < candidates@.len()
                &&& candidates@[i as int] is Some
                &&& forall|j: int| 0 <= j < i ==> #[trigger] candidates@[j] is None
            },
            None => forall|j: int| 0 <= j < candidates@.len() ==> #[trigger] candidates@[j] is None,
        },
{
    let mut i: usize = 0;
    while i < candidates.len()
        invariant
            i <= candidates@.len(),
            forall|j: int| 0 <= j < i ==> #[trigger] candidates@[j] is None,
        decreases candidates.len() - i,
    {
        if candidates[i].is_some() {
            return Some(i);
        }
        i = i + 1;
    }
    None
}

} // verus!
