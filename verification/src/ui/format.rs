use vstd::prelude::*;

use crate::download::model::{Bytes, DownloadStatus};
use crate::monitor::state::DownloadView;
use crate::text::{
    chars_of, decimal, parse_u64, parse_u64_spec, push_char, push_decimal, push_signed_decimal,
    push_str, signed_decimal, to_ascii_lowercase, trim, trim_bounds, char_ascii_lower,
    chars_eq,
};

verus! {

/// Label of a status in the downloads table.
pub open spec fn status_label_of(status: DownloadStatus) -> Seq<char> {
    match status {
        DownloadStatus::Added => "Added"@,
        DownloadStatus::Queued => "Queued"@,
        DownloadStatus::Downloading => "Downloading"@,
        DownloadStatus::Paused => "Paused"@,
        DownloadStatus::Retrying => "Retrying"@,
        DownloadStatus::PreparingFile => "Preparing"@,
        DownloadStatus::Completed => "Finished"@,
        DownloadStatus::Error => "Error"@,
        DownloadStatus::Removed => "Removed"@,
    }
}

/// Label of a status in the downloads table.
pub fn status_label(status: DownloadStatus) -> (r: &'static str)
    ensures
        r@ == status_label_of(status),
{
    match status {
        DownloadStatus::Added => "Added",
        DownloadStatus::Queued => "Queued",
        DownloadStatus::Downloading => "Downloading",
        DownloadStatus::Paused => "Paused",
        DownloadStatus::Retrying => "Retrying",
        DownloadStatus::PreparingFile => "Preparing",
        DownloadStatus::Completed => "Finished",
        DownloadStatus::Error => "Error",
        DownloadStatus::Removed => "Removed",
    }
}

/// Rank of a status when the table is sorted by status: running downloads first,
/// removed ones last.
pub open spec fn status_rank(status: DownloadStatus) -> u8 {
    match status {
        DownloadStatus::Downloading => 0,
        DownloadStatus::Queued => 1,
        DownloadStatus::Retrying => 2,
        DownloadStatus::PreparingFile => 3,
        DownloadStatus::Paused => 4,
        DownloadStatus::Completed => 5,
        DownloadStatus::Error => 6,
        DownloadStatus::Added => 7,
        DownloadStatus::Removed => 8,
    }
}

/// Rank of a status when the table is sorted by status.
pub fn status_order(status: DownloadStatus) -> (r: u8)
    ensures
        r == status_rank(status),
{
    match status {
        DownloadStatus::Downloading => 0,
        DownloadStatus::Queued => 1,
        DownloadStatus::Retrying => 2,
        DownloadStatus::PreparingFile => 3,
        DownloadStatus::Paused => 4,
        DownloadStatus::Completed => 5,
        DownloadStatus::Error => 6,
        DownloadStatus::Added => 7,
        DownloadStatus::Removed => 8,
    }
}

/// Statuses whose rows show a progress bar.
pub fn status_uses_progress(status: DownloadStatus) -> (r: bool)
    ensures
        r == (status == DownloadStatus::Downloading || status == DownloadStatus::Queued || status
            == DownloadStatus::Paused || status == DownloadStatus::Retrying || status
            == DownloadStatus::PreparingFile),
{
    match status {
        DownloadStatus::Downloading | DownloadStatus::Queued | DownloadStatus::Paused
        | DownloadStatus::Retrying | DownloadStatus::PreparingFile => true,
        _ => false,
    }
}

/// Time-left text: `-` when unknown, seconds under a minute, else minutes and seconds.
pub open spec fn eta_text(eta_seconds: Option<u64>) -> Seq<char> {
    match eta_seconds {
        None => "-"@,
        Some(s) => if s < 60 {
            decimal(s as nat) + "s"@
        } else {
            decimal((s / 60) as nat) + "m "@ + decimal((s % 60) as nat) + "s"@
        },
    }
}

/// Time-left text of a download.
pub fn format_eta(eta_seconds: Option<u64>) -> (r: String)
    ensures
        r@ == eta_text(eta_seconds),
{
    let mut r = String::new();
    match eta_seconds {
        None => push_str(&mut r, "-"),
        Some(seconds) => {
            if seconds < 60 {
                push_decimal(&mut r, seconds);
                push_str(&mut r, "s");
            } else {
                push_decimal(&mut r, seconds / 60);
                push_str(&mut r, "m ");
                push_decimal(&mut r, seconds % 60);
                push_str(&mut r, "s");
            }
        },
    }
    r
}

/// Milliseconds in a day.
pub open spec fn day_ms() -> int {
    86_400_000
}

/// How long ago a download was added, in words: `-` for unset times or an unknown
/// clock, `today` within the first day (or for a time in the future), then days, then
/// months of thirty days.
pub open spec fn date_added_text(created_at: i64, now_ms: Option<i64>) -> Seq<char> {
    if created_at <= 0 || now_ms is None {
        "-"@
    } else if now_ms->0 - created_at < day_ms() {
        "today"@
    } else {
        let days = (now_ms->0 - created_at) / day_ms();
        if days == 1 {
            "1 day ago"@
        } else if days < 30 {
            decimal(days as nat) + " days ago"@
        } else {
            decimal((days / 30) as nat) + " months ago"@
        }
    }
}

/// How long ago a download was added, given the current time when the clock could be
/// read.
pub fn format_date_added(created_at: i64, now_ms: Option<i64>) -> (r: String)
    ensures
        r@ == date_added_text(created_at, now_ms),
{
    let mut r = String::new();
    let now = match now_ms {
        Some(n) => n,
        None => {
            push_str(&mut r, "-");
            return r;
        },
    };
    if created_at <= 0 {
        push_str(&mut r, "-");
        return r;
    }
    if now < created_at || now - created_at < 86_400_000 {
        push_str(&mut r, "today");
        return r;
    }
    let days = (now - created_at) / 86_400_000;
    if days == 1 {
        push_str(&mut r, "1 day ago");
    } else if days < 30 {
        push_decimal(&mut r, days as u64);
        push_str(&mut r, " days ago");
    } else {
        push_decimal(&mut r, (days / 30) as u64);
        push_str(&mut r, " months ago");
    }
    r
}

/// Sort key of an optional size: unknown sizes sort as zero.
pub fn byte_sort_value(size: Option<Bytes>) -> (r: u64)
    ensures
        r == match size {
            Some(b) => b@,
            None => 0,
        },
{
    match size {
        Some(b) => b.get(),
        None => 0,
    }
}

/// Name shown for a download: its file name, or `Download {id}` when it has none.
pub fn display_name(view: &DownloadView) -> (r: String)
    ensures
        r@ == (if view.file_name@.len() == 0 {
            "Download "@ + signed_decimal(view.id@ as int)
        } else {
            view.file_name@
        }),
{
    let mut r = String::new();
    if view.file_name.as_str().is_empty() {
        push_str(&mut r, "Download ");
        push_signed_decimal(&mut r, view.id.get());
    } else {
        push_str(&mut r, view.file_name.as_str());
    }
    r
}

/// Text of an on/off setting.
pub fn enabled_text(enabled: bool) -> (r: &'static str)
    ensures
        r@ == (if enabled {
            "Enabled"@
        } else {
            "Disabled"@
        }),
{
    if enabled {
        "Enabled"
    } else {
        "Disabled"
    }
}

/// Text of the global speed limit: whole KiB/s, or `Unlimited`.
pub fn speed_limit_text(limit: Option<u64>) -> (r: String)
    ensures
        r@ == match limit {
            Some(l) => decimal((l / 1024) as nat) + " KiB/s"@,
            None => "Unlimited"@,
        },
{
    let mut r = String::new();
    match limit {
        Some(l) => {
            push_decimal(&mut r, l / 1024);
            push_str(&mut r, " KiB/s");
        },
        None => push_str(&mut r, "Unlimited"),
    }
    r
}

/// Value of a number stepper's text: the trimmed text as a `u32`, clamped to
/// `[min, max]`, or `min` when it is not a `u32`.
pub open spec fn stepper_value_of(text: Seq<char>, min: u32, max: u32) -> u32 {
    match parse_u64_spec(trim(text)) {
        Some(v) => if v > u32::MAX {
            min
        } else if v < min {
            min
        } else if v > max {
            max
        } else {
            v as u32
        },
        None => min,
    }
}

/// Value of a number stepper's text.
pub fn stepper_text_value(text: &str, min: u32, max: u32) -> (r: u32)
    requires
        min <= max,
    ensures
        r == stepper_value_of(text@, min, max),
{
    let chars = chars_of(text);
    let (lo, hi) = trim_bounds(&chars, 0, chars.len());
    assert(chars@.subrange(0, chars@.len() as int) == text@);
    match parse_u64(&chars, lo, hi) {
        Some(v) => if v > 4294967295 {
            min
        } else if v < min as u64 {
            min
        } else if v > max as u64 {
            max
        } else {
            v as u32
        },
        None => min,
    }
}

/// The concurrent-download setting a stepper value gives, clamped to at most sixteen,
/// and the queue limit it sets: the setting itself, or `u16::MAX` for zero.
pub fn concurrent_setting(value: u32) -> (r: (u16, crate::download::model::NonZeroU16))
    ensures
        r.0 == (if value > 16 {
            16
        } else {
            value
        }),
        r.1@ == (if r.0 == 0 {
            u16::MAX
        } else {
            r.0
        }),
{
    let updated: u16 = if value > 16 {
        16
    } else {
        value as u16
    };
    let limit = match crate::download::model::NonZeroU16::new(updated) {
        Some(n) => n,
        None => match crate::download::model::NonZeroU16::new(65535) {
            Some(n) => n,
            None => crate::download::model::NonZeroU16::new(1).unwrap(),
        },
    };
    (updated, limit)
}

/// The text after the last `c` in `s`, or all of `s` when it holds none.
pub open spec fn after_last(s: Seq<char>, c: char) -> Seq<char>
    decreases s.len(),
{
    if s.len() == 0 {
        s
    } else if s.last() == c {
        Seq::empty()
    } else {
        after_last(s.drop_last(), c).push(s.last())
    }
}

/// Category of a file from its lowercased extension.
pub open spec fn kind_of_extension(ext: Seq<char>) -> Seq<char> {
    if ext == "zip"@ || ext == "7z"@ || ext == "rar"@ || ext == "tar"@ || ext == "gz"@ {
        "Compressed"@
    } else if ext == "exe"@ || ext == "msi"@ || ext == "appimage"@ || ext == "dmg"@ || ext
        == "deb"@ || ext == "rpm"@ {
        "Programs"@
    } else if ext == "mp4"@ || ext == "mkv"@ || ext == "webm"@ || ext == "avi"@ {
        "Videos"@
    } else if ext == "mp3"@ || ext == "flac"@ || ext == "wav"@ || ext == "ogg"@ {
        "Music"@
    } else if ext == "png"@ || ext == "jpg"@ || ext == "jpeg"@ || ext == "gif"@ || ext
        == "webp"@ {
        "Pictures"@
    } else {
        "Documents"@
    }
}

/// Start of the text after the last `c` in `v`.
fn after_last_start(v: &Vec<char>, c: char) -> (r: usize)
    ensures
        r <= v@.len(),
        v@.skip(r as int) == after_last(v@, c),
{
    let mut i: usize = v.len();
    assert(v@.take(i as int) =~= v@);
    assert(after_last(v@, c) + v@.skip(i as int) =~= after_last(v@, c));
    while i > 0
        invariant
            i <= v@.len(),
            after_last(v@, c) == after_last(v@.take(i as int), c) + v@.skip(i as int),
        decreases i,
    {
        if v[i - 1] == c {
            proof {
                let t = v@.take(i as int);
                assert(t.last() == c);
                assert(after_last(t, c) == Seq::<char>::empty());
                assert(after_last(v@, c) =~= v@.skip(i as int));
            }
            return i;
        }
        proof {
            let t = v@.take(i as int);
            assert(t.drop_last() =~= v@.take(i - 1));
            assert(v@.skip(i - 1) =~= seq![v@[i - 1]] + v@.skip(i as int));
            assert(after_last(t, c) == after_last(v@.take(i - 1), c).push(v@[i - 1]));
            assert(after_last(v@, c) =~= after_last(v@.take(i - 1), c) + v@.skip(i - 1));
        }
        i = i - 1;
    }
    assert(v@.take(0) =~= Seq::<char>::empty());
    assert(after_last(v@, c) =~= v@.skip(0));
    0
}

/// Lowercased copy of `v[lo..]`.
fn lowered_tail(v: &Vec<char>, lo: usize) -> (r: Vec<char>)
    requires
        lo <= v@.len(),
    ensures
        r@ == to_ascii_lowercase(v@.skip(lo as int)),
{
    let mut r: Vec<char> = Vec::new();
    let mut i: usize = lo;
    while i < v.len()
        invariant
            lo <= i <= v@.len(),
            r@ == to_ascii_lowercase(v@.subrange(lo as int, i as int)),
        decreases v.len() - i,
    {
        r.push(char_ascii_lower(v[i]));
        i = i + 1;
        assert(r@ =~= to_ascii_lowercase(v@.subrange(lo as int, i as int)));
    }
    assert(v@.subrange(lo as int, i as int) =~= v@.skip(lo as int));
    r
}

/// Whether the characters of `v` spell `word`.
fn spells(v: &Vec<char>, word: &str) -> (r: bool)
    ensures
        r == (v@ == word@),
{
    let w = chars_of(word);
    chars_eq(v, &w)
}

/// Category of a file from its extension, for the kind column.
pub fn kind_from_name(file_name: &str) -> (r: &'static str)
    ensures
        r@ == kind_of_extension(to_ascii_lowercase(after_last(file_name@, '.'))),
{
    let chars = chars_of(file_name);
    let start = after_last_start(&chars, '.');
    let ext = lowered_tail(&chars, start);
    if spells(&ext, "zip") || spells(&ext, "7z") || spells(&ext, "rar") || spells(&ext, "tar")
        || spells(&ext, "gz") {
        "Compressed"
    } else if spells(&ext, "exe") || spells(&ext, "msi") || spells(&ext, "appimage") || spells(
        &ext,
        "dmg",
    ) || spells(&ext, "deb") || spells(&ext, "rpm") {
        "Programs"
    } else if spells(&ext, "mp4") || spells(&ext, "mkv") || spells(&ext, "webm") || spells(
        &ext,
        "avi",
    ) {
        "Videos"
    } else if spells(&ext, "mp3") || spells(&ext, "flac") || spells(&ext, "wav") || spells(
        &ext,
        "ogg",
    ) {
        "Music"
    } else if spells(&ext, "png") || spells(&ext, "jpg") || spells(&ext, "jpeg") || spells(
        &ext,
        "gif",
    ) || spells(&ext, "webp") {
        "Pictures"
    } else {
        "Documents"
    }
}

/// A control character (Unicode category Cc).
pub open spec fn is_control(c: char) -> bool {
    (c as u32) <= 0x1F || (0x7F <= (c as u32) <= 0x9F)
}

/// A character replaced in file names: path separators, characters Windows forbids,
/// and control characters.
pub open spec fn is_forbidden_in_file_name(c: char) -> bool {
    c == '<' || c == '>' || c == ':' || c == '"' || c == '/' || c == '\\' || c == '|' || c == '?'
        || c == '*' || is_control(c)
}

/// `s` with every forbidden character replaced by `_`.
pub open spec fn sanitized(s: Seq<char>) -> Seq<char> {
    Seq::new(
        s.len(),
        |i: int|
            if is_forbidden_in_file_name(s[i]) {
                '_'
            } else {
                s[i]
            },
    )
}

/// Makes text safe as a file name by replacing forbidden characters with `_`.
pub fn sanitize_file_name(value: &str) -> (r: String)
    ensures
        r@ == sanitized(value@),
{
    let chars = chars_of(value);
    let mut r = String::new();
    let mut i: usize = 0;
    while i < chars.len()
        invariant
            i <= chars@.len(),
            chars@ == value@,
            r@ == sanitized(chars@.take(i as int)),
        decreases chars.len() - i,
    {
        let ch = chars[i];
        let u = ch as u32;
        let forbidden = ch == '<' || ch == '>' || ch == ':' || ch == '"' || ch == '/' || ch == '\\'
            || ch == '|' || ch == '?' || ch == '*' || u <= 0x1F || (0x7F <= u && u <= 0x9F);
        if forbidden {
            push_char(&mut r, '_');
        } else {
            push_char(&mut r, ch);
        }
        i = i + 1;
        assert(r@ =~= sanitized(chars@.take(i as int)));
    }
    assert(chars@.take(i as int) =~= chars@);
    r
}

/// `s` up to its first `?` or `#`: a URL without its query and fragment.
pub open spec fn before_query(s: Seq<char>) -> Seq<char>
    decreases s.len(),
{
    if s.len() == 0 {
        s
    } else if s[0] == '?' || s[0] == '#' {
        Seq::empty()
    } else {
        seq![s[0]] + before_query(s.drop_first())
    }
}

/// Index of the last `c` in `s`, if any.
pub open spec fn find_last(s: Seq<char>, c: char) -> Option<int>
    decreases s.len(),
{
    if s.len() == 0 {
        None
    } else if s.last() == c {
        Some(s.len() - 1)
    } else {
        find_last(s.drop_last(), c)
    }
}

/// Text that is empty once trimmed.
pub open spec fn is_blank(s: Seq<char>) -> bool {
    trim(s).len() == 0
}

/// The last `/`-separated segment of `s` that is not blank.
pub open spec fn last_nonblank_segment(s: Seq<char>) -> Option<Seq<char>>
    decreases s.len(),
{
    match find_last(s, '/') {
        None => if is_blank(s) {
            None
        } else {
            Some(s)
        },
        Some(i) => if 0 <= i < s.len() {
            if !is_blank(s.skip(i + 1)) {
                Some(s.skip(i + 1))
            } else {
                last_nonblank_segment(s.take(i))
            }
        } else {
            None
        },
    }
}

/// File name suggested for a URL: its last non-blank path segment (query and fragment
/// left out), made safe, or `download.bin`.
pub open spec fn url_file_name(url: Seq<char>) -> Seq<char> {
    match last_nonblank_segment(before_query(url)) {
        Some(segment) => if sanitized(segment).len() > 0 {
            sanitized(segment)
        } else {
            "download.bin"@
        },
        None => "download.bin"@,
    }
}

proof fn lemma_before_query_cut(u: Seq<char>, c: char, rest: Seq<char>)
    requires
        c == '?' || c == '#',
        forall|i: int| 0 <= i < u.len() ==> #[trigger] u[i] != '?' && u[i] != '#',
    ensures
        before_query(u + seq![c] + rest) == u,
        before_query(u) == u,
    decreases u.len(),
{
    let s = u + seq![c] + rest;
    if u.len() == 0 {
        assert(s[0] == c);
        assert(before_query(u) == u);
    } else {
        let tail = u.drop_first();
        assert forall|i: int| 0 <= i < tail.len() implies #[trigger] tail[i] != '?' && tail[i] != '#' by {
            assert(tail[i] == u[i + 1]);
        }
        lemma_before_query_cut(tail, c, rest);
        assert(s[0] == u[0]);
        assert(s.drop_first() =~= tail + seq![c] + rest);
        assert(u =~= seq![u[0]] + tail);
    }
}

/// The suggested file name ignores the query and the fragment: whatever follows the
/// first `?` or `#` of a URL leaves the name as the URL without it gives.
pub proof fn lemma_url_file_name_ignores_query(url: Seq<char>, separator: char, rest: Seq<char>)
    requires
        separator == '?' || separator == '#',
        forall|i: int| 0 <= i < url.len() ==> #[trigger] url[i] != '?' && url[i] != '#',
    ensures
        url_file_name(url + seq![separator] + rest) == url_file_name(url),
{
    lemma_before_query_cut(url, separator, rest);
}

proof fn lemma_find_last(s: Seq<char>, c: char)
    ensures
        match find_last(s, c) {
            Some(i) => 0 <= i < s.len() && s[i] == c && forall|j: int| i < j < s.len() ==> s[j] != c,
            None => forall|j: int| 0 <= j < s.len() ==> s[j] != c,
        },
    decreases s.len(),
{
    if s.len() > 0 && s.last() != c {
        lemma_find_last(s.drop_last(), c);
        assert forall|j: int| 0 <= j < s.len() - 1 implies s[j] == s.drop_last()[j] by {}
    }
}

/// End of the part of `v` before its first `?` or `#`.
fn query_start(v: &Vec<char>) -> (r: usize)
    ensures
        r <= v@.len(),
        v@.take(r as int) == before_query(v@),
{
    let mut i: usize = 0;
    assert(v@.take(0) + before_query(v@.skip(0)) =~= before_query(v@)) by {
        assert(v@.skip(0) =~= v@);
    }
    while i < v.len()
        invariant
            i <= v@.len(),
            before_query(v@) == v@.take(i as int) + before_query(v@.skip(i as int)),
        decreases v.len() - i,
    {
        let ghost rest = v@.skip(i as int);
        assert(rest[0] == v@[i as int]);
        if v[i] == '?' || v[i] == '#' {
            assert(before_query(rest) =~= Seq::<char>::empty());
            assert(before_query(v@) =~= v@.take(i as int));
            return i;
        }
        assert(rest.drop_first() =~= v@.skip(i + 1));
        assert(v@.take(i + 1) =~= v@.take(i as int) + seq![v@[i as int]]);
        assert(before_query(v@) =~= v@.take(i + 1) + before_query(v@.skip(i + 1)));
        i = i + 1;
    }
    assert(v@.skip(i as int) =~= Seq::<char>::empty());
    assert(before_query(v@) =~= v@.take(i as int));
    i
}

/// Index of the last `c` among the first `hi` characters of `v`.
fn last_index(v: &Vec<char>, hi: usize, c: char) -> (r: Option<usize>)
    requires
        hi <= v@.len(),
    ensures
        match r {
            Some(i) => find_last(v@.take(hi as int), c) == Some(i as int),
            None => find_last(v@.take(hi as int), c) is None,
        },
{
    let mut i: usize = hi;
    while i > 0
        invariant
            i <= hi <= v@.len(),
            find_last(v@.take(hi as int), c) == find_last(v@.take(i as int), c),
        decreases i,
    {
        let ghost t = v@.take(i as int);
        assert(t.last() == v@[i - 1]);
        if v[i - 1] == c {
            return Some(i - 1);
        }
        assert(t.drop_last() =~= v@.take(i - 1));
        i = i - 1;
    }
    None
}

/// File name suggested for a URL typed into the new-download window.
pub fn file_name_from_url(url: &str) -> (r: String)
    ensures
        r@ == url_file_name(url@),
{
    let chars = chars_of(url);
    let end = query_start(&chars);
    let ghost base = before_query(url@);
    let mut hi: usize = end;
    assert(chars@.take(hi as int) == base);
    loop
        invariant
            hi <= chars@.len(),
            chars@ == url@,
            base == before_query(url@),
            last_nonblank_segment(base) == last_nonblank_segment(chars@.take(hi as int)),
        decreases hi,
    {
        let ghost prefix = chars@.take(hi as int);
        let found = last_index(&chars, hi, '/');
        proof {
            lemma_find_last(prefix, '/');
        }
        let lo = match found {
            Some(p) => p + 1,
            None => 0,
        };
        let (a, b) = trim_bounds(&chars, lo, hi);
        proof {
            assert(chars@.subrange(lo as int, hi as int) =~= prefix.skip(lo as int));
            if found is None {
                assert(prefix.skip(0) =~= prefix);
            }
        }
        if a < b {
            let segment = crate::text::string_from_range(&chars, lo, hi);
            let r = sanitize_file_name(segment.as_str());
            if r.as_str().is_empty() {
                let mut d = String::new();
                push_str(&mut d, "download.bin");
                return d;
            }
            return r;
        }
        match found {
            None => {
                let mut d = String::new();
                push_str(&mut d, "download.bin");
                return d;
            },
            Some(p) => {
                assert(prefix.take(p as int) =~= chars@.take(p as int));
                hi = p;
            },
        }
    }
}

} // verus!
