use vstd::prelude::*;

verus! {

// ---------------------------------------------------------------------------
// Specifications of the character-level helpers
// ---------------------------------------------------------------------------

/// A character is an ASCII decimal digit.
pub open spec fn is_digit(c: char) -> bool {
    48 <= (c as u32) <= 57
}

/// Numeric value of an ASCII decimal digit.
pub open spec fn digit_value(c: char) -> nat {
    ((c as u32) - 48) as nat
}

/// Every character of `s` is an ASCII decimal digit.
pub open spec fn all_digits(s: Seq<char>) -> bool {
    forall|i: int| 0 <= i < s.len() ==> #[trigger] is_digit(s[i])
}

/// Value of a sequence of decimal digits, most significant first.
pub open spec fn digits_value(s: Seq<char>) -> nat
    decreases s.len(),
{
    if s.len() == 0 {
        0
    } else {
        digits_value(s.drop_last()) * 10 + digit_value(s.last())
    }
}

/// The digits of an unsigned number text, after an optional leading `+`.
pub open spec fn unsigned_body(s: Seq<char>) -> Seq<char> {
    if s.len() > 0 && s[0] == '+' {
        s.drop_first()
    } else {
        s
    }
}

/// What `str::parse::<u64>` gives: an optional `+`, then one or more decimal
/// digits whose value fits in a `u64`.
pub open spec fn parse_u64_spec(s: Seq<char>) -> Option<u64> {
    let body = unsigned_body(s);
    if body.len() > 0 && all_digits(body) && digits_value(body) <= u64::MAX {
        Some(digits_value(body) as u64)
    } else {
        None
    }
}

/// The ASCII digit character for `d < 10`.
pub open spec fn digit_char(d: nat) -> char {
    ((d + 48) as u32) as char
}

/// Decimal rendering of a natural number, without leading zeros.
pub open spec fn decimal(n: nat) -> Seq<char>
    decreases n,
{
    if n < 10 {
        seq![digit_char(n)]
    } else {
        decimal(n / 10).push(digit_char(n % 10))
    }
}

/// Decimal rendering of an integer, with a leading `-` when negative.
pub open spec fn signed_decimal(n: int) -> Seq<char> {
    if n < 0 {
        seq!['-'] + decimal((-n) as nat)
    } else {
        decimal(n as nat)
    }
}

/// Unicode `White_Space` characters, which `char::is_whitespace` accepts.
pub open spec fn is_whitespace(c: char) -> bool {
    let u = c as u32;
    ||| 9 <= u <= 13
    ||| u == 32
    ||| u == 0x85
    ||| u == 0xA0
    ||| u == 0x1680
    ||| 0x2000 <= u <= 0x200A
    ||| u == 0x2028
    ||| u == 0x2029
    ||| u == 0x202F
    ||| u == 0x205F
    ||| u == 0x3000
}

/// `s` with its leading whitespace removed.
pub open spec fn trim_start(s: Seq<char>) -> Seq<char>
    decreases s.len(),
{
    if s.len() > 0 && is_whitespace(s[0]) {
        trim_start(s.drop_first())
    } else {
        s
    }
}

/// `s` with its trailing whitespace removed.
pub open spec fn trim_end(s: Seq<char>) -> Seq<char>
    decreases s.len(),
{
    if s.len() > 0 && is_whitespace(s.last()) {
        trim_end(s.drop_last())
    } else {
        s
    }
}

/// What `str::trim` gives: `s` without leading and trailing whitespace.
pub open spec fn trim(s: Seq<char>) -> Seq<char> {
    trim_end(trim_start(s))
}

/// Index of the first occurrence of `c` in `s`, if any.
pub open spec fn find_first(s: Seq<char>, c: char) -> Option<int>
    decreases s.len(),
{
    if s.len() == 0 {
        None
    } else if s[0] == c {
        Some(0)
    } else {
        match find_first(s.drop_first(), c) {
            Some(i) => Some(i + 1),
            None => None,
        }
    }
}

/// What `str::split_once` with a character gives.
pub open spec fn split_once(s: Seq<char>, c: char) -> Option<(Seq<char>, Seq<char>)> {
    match find_first(s, c) {
        Some(i) => Some((s.take(i), s.skip(i + 1))),
        None => None,
    }
}

/// The part of `s` before the first `c`, or all of `s`.
pub open spec fn before_first(s: Seq<char>, c: char) -> Seq<char> {
    match find_first(s, c) {
        Some(i) => s.take(i),
        None => s,
    }
}

/// ASCII lowercase mapping of one character; other characters stay.
pub open spec fn ascii_lower(c: char) -> char {
    if 65 <= (c as u32) <= 90 {
        ((c as u32) + 32) as char
    } else {
        c
    }
}

/// What `str::to_ascii_lowercase` gives.
pub open spec fn to_ascii_lowercase(s: Seq<char>) -> Seq<char> {
    Seq::new(s.len(), |i: int| ascii_lower(s[i]))
}

/// What `str::eq_ignore_ascii_case` gives.
pub open spec fn eq_ignore_ascii_case(a: Seq<char>, b: Seq<char>) -> bool {
    to_ascii_lowercase(a) == to_ascii_lowercase(b)
}

/// `s` ends with `suffix`.
pub open spec fn ends_with(s: Seq<char>, suffix: Seq<char>) -> bool {
    suffix.len() <= s.len() && s.skip(s.len() - suffix.len()) == suffix
}

// ---------------------------------------------------------------------------
// Lemmas
// ---------------------------------------------------------------------------

proof fn lemma_find_first_props(s: Seq<char>, c: char)
    ensures
        match find_first(s, c) {
            Some(i) => 0 <= i < s.len() && s[i] == c && forall|j: int| 0 <= j < i ==> s[j] != c,
            None => forall|j: int| 0 <= j < s.len() ==> s[j] != c,
        },
    decreases s.len(),
{
    if s.len() > 0 && s[0] != c {
        lemma_find_first_props(s.drop_first(), c);
        match find_first(s.drop_first(), c) {
            Some(i) => {
                assert forall|j: int| 0 <= j < i + 1 implies s[j] != c by {
                    if j > 0 {
                        assert(s[j] == s.drop_first()[j - 1]);
                    }
                }
            },
            None => {
                assert forall|j: int| 0 <= j < s.len() implies s[j] != c by {
                    if j > 0 {
                        assert(s[j] == s.drop_first()[j - 1]);
                    }
                }
            },
        }
    }
}

/// `find_first` is the least index holding `c`.
pub proof fn lemma_find_first_at(s: Seq<char>, c: char, i: int)
    requires
        0 <= i < s.len(),
        s[i] == c,
        forall|j: int| 0 <= j < i ==> s[j] != c,
    ensures
        find_first(s, c) == Some(i),
{
    lemma_find_first_props(s, c);
    match find_first(s, c) {
        Some(k) => {
            if k < i {
                assert(s[k] != c);
            } else if k > i {
                assert(s[i] != c);
            }
        },
        None => {
            assert(s[i] != c);
        },
    }
}

/// `find_first` is `None` when `c` does not occur.
pub proof fn lemma_find_first_none(s: Seq<char>, c: char)
    requires
        forall|j: int| 0 <= j < s.len() ==> s[j] != c,
    ensures
        find_first(s, c) == None::<int>,
{
    lemma_find_first_props(s, c);
    if let Some(k) = find_first(s, c) {
        assert(s[k] != c);
    }
}

proof fn lemma_trim_start_skip(s: Seq<char>, k: int)
    requires
        0 <= k <= s.len(),
        forall|j: int| 0 <= j < k ==> is_whitespace(s[j]),
    ensures
        trim_start(s) == trim_start(s.skip(k)),
    decreases k,
{
    if k > 0 {
        assert(s.drop_first().skip(k - 1) == s.skip(k));
        assert forall|j: int| 0 <= j < k - 1 implies is_whitespace(s.drop_first()[j]) by {
            assert(s.drop_first()[j] == s[j + 1]);
        }
        lemma_trim_start_skip(s.drop_first(), k - 1);
    } else {
        assert(s.skip(0) == s);
    }
}

proof fn lemma_trim_end_take(s: Seq<char>, k: int)
    requires
        0 <= k <= s.len(),
        forall|j: int| k <= j < s.len() ==> is_whitespace(s[j]),
    ensures
        trim_end(s) == trim_end(s.take(k)),
    decreases s.len() - k,
{
    if k < s.len() {
        assert(s.drop_last().take(k) == s.take(k));
        assert forall|j: int| k <= j < s.drop_last().len() implies is_whitespace(s.drop_last()[j]) by {
            assert(s.drop_last()[j] == s[j]);
        }
        lemma_trim_end_take(s.drop_last(), k);
    } else {
        assert(s.take(k) == s);
    }
}

proof fn lemma_digit_char(d: nat)
    requires
        d < 10,
    ensures
        is_digit(digit_char(d)),
        digit_value(digit_char(d)) == d,
        !is_whitespace(digit_char(d)),
{
    assert(((d + 48) as u32) == d + 48);
}

/// The decimal rendering of `n` is a non-empty run of digits whose value is `n`.
pub proof fn lemma_decimal_digits(n: nat)
    ensures
        decimal(n).len() > 0,
        all_digits(decimal(n)),
        digits_value(decimal(n)) == n,
        !is_whitespace(decimal(n).last()),
    decreases n,
{
    let s = decimal(n);
    if n < 10 {
        lemma_digit_char(n);
        assert(s.drop_last() =~= Seq::<char>::empty());
        assert(digits_value(s.drop_last()) == 0);
    } else {
        lemma_decimal_digits(n / 10);
        lemma_digit_char(n % 10);
        assert(s.drop_last() =~= decimal(n / 10));
        assert(s.last() == digit_char(n % 10));
        assert(n == (n / 10) * 10 + n % 10) by (nonlinear_arith);
        assert forall|i: int| 0 <= i < s.len() implies #[trigger] is_digit(s[i]) by {
            if i < s.len() - 1 {
                assert(s[i] == decimal(n / 10)[i]);
            }
        }
    }
}

/// `str::parse::<u64>` reads back the decimal rendering of any `u64`.
pub proof fn lemma_parse_decimal(n: u64)
    ensures
        parse_u64_spec(decimal(n as nat)) == Some(n),
{
    lemma_decimal_digits(n as nat);
    assert(is_digit(decimal(n as nat)[0]));
}

/// Trimming a text that neither starts nor ends with whitespace, padded on both sides
/// with whitespace, gives the text back.
pub proof fn lemma_trim_padded(leading: Seq<char>, core: Seq<char>, trailing: Seq<char>)
    requires
        forall|j: int| 0 <= j < leading.len() ==> #[trigger] is_whitespace(leading[j]),
        forall|j: int| 0 <= j < trailing.len() ==> #[trigger] is_whitespace(trailing[j]),
        core.len() > 0,
        !is_whitespace(core[0]),
        !is_whitespace(core.last()),
    ensures
        trim(leading + core + trailing) == core,
{
    let s = leading + core + trailing;
    let t = core + trailing;
    assert forall|j: int| 0 <= j < leading.len() implies is_whitespace(s[j]) by {
        assert(s[j] == leading[j]);
    }
    lemma_trim_start_skip(s, leading.len() as int);
    assert(s.skip(leading.len() as int) =~= t);
    assert(t[0] == core[0]);
    assert(trim_start(t) == t);
    assert forall|j: int| core.len() <= j < t.len() implies is_whitespace(t[j]) by {
        assert(t[j] == trailing[j - core.len()]);
    }
    lemma_trim_end_take(t, core.len() as int);
    assert(t.take(core.len() as int) =~= core);
    assert(trim_end(core) == core);
}

// ---------------------------------------------------------------------------
// Executable helpers
// ---------------------------------------------------------------------------

/// Copies the characters of a string slice into a vector.
pub fn chars_of(s: &str) -> (v: Vec<char>)
    ensures
        v@ == s@,
{
    let mut v: Vec<char> = Vec::new();
    for c in it: s.chars()
        invariant
            v@ == it.seq().take(it.index() as int),
    {
        v.push(c);
    }
    v
}

/// `String::push` from std: appends one character.
#[verifier::external_body]
pub(crate) fn push_char(s: &mut String, c: char)
    ensures
        final(s)@ == old(s)@.push(c),
{
    s.push(c);
}

/// Appends a string slice.
pub(crate) fn push_str(s: &mut String, t: &str)
    ensures
        final(s)@ == old(s)@ + t@,
{
    s.append(t);
}

/// Builds a string holding the characters `v[lo..hi]`.
pub fn string_from_range(v: &Vec<char>, lo: usize, hi: usize) -> (s: String)
    requires
        lo <= hi <= v.len(),
    ensures
        s@ == v@.subrange(lo as int, hi as int),
{
    let mut s = String::new();
    let mut i: usize = lo;
    while i < hi
        invariant
            lo <= i <= hi <= v.len(),
            s@ == v@.subrange(lo as int, i as int),
        decreases hi - i,
    {
        push_char(&mut s, v[i]);
        assert(v@.subrange(lo as int, i + 1) == v@.subrange(lo as int, i as int).push(v@[i as int]));
        i = i + 1;
    }
    s
}

/// Builds a string holding exactly the given characters.
pub fn string_from_chars(v: &Vec<char>) -> (s: String)
    ensures
        s@ == v@,
{
    let s = string_from_range(v, 0, v.len());
    assert(v@.subrange(0, v.len() as int) == v@);
    s
}

/// Digit character for a value below ten.
fn digit_to_char(d: u64) -> (c: char)
    requires
        d < 10,
    ensures
        c == digit_char(d as nat),
{
    let b: u8 = 48u8 + (d as u8);
    let c = b as char;
    assert(c == digit_char(d as nat)) by {
        assert((b as u32) == d + 48);
    }
    c
}

/// Appends the decimal rendering of `n`.
pub fn push_decimal(s: &mut String, n: u64)
    ensures
        final(s)@ == old(s)@ + decimal(n as nat),
    decreases n,
{
    if n >= 10 {
        push_decimal(s, n / 10);
    }
    push_char(s, digit_to_char(n % 10));
    proof {
        if n < 10 {
            assert(decimal(n as nat) == seq![digit_char(n as nat)]);
        }
    }
}

/// Decimal rendering of an unsigned number.
pub fn u64_to_string(n: u64) -> (s: String)
    ensures
        s@ == decimal(n as nat),
{
    let mut s = String::new();
    push_decimal(&mut s, n);
    s
}

/// Appends the decimal rendering of a signed number.
pub fn push_signed_decimal(s: &mut String, n: i64)
    ensures
        final(s)@ == old(s)@ + signed_decimal(n as int),
{
    if n < 0 {
        push_char(s, '-');
        let m: u64 = (-(n as i128)) as u64;
        push_decimal(s, m);
        assert(old(s)@ + signed_decimal(n as int) == old(s)@.push('-') + decimal((-n) as nat));
    } else {
        push_decimal(s, n as u64);
    }
}

/// Decimal rendering of a signed 64-bit number.
pub fn i64_to_string(n: i64) -> (s: String)
    ensures
        s@ == signed_decimal(n as int),
{
    let mut s = String::new();
    push_signed_decimal(&mut s, n);
    s
}

/// `char::is_whitespace` on the Unicode `White_Space` set.
pub fn char_is_whitespace(c: char) -> (b: bool)
    ensures
        b == is_whitespace(c),
{
    let u = c as u32;
    (9 <= u && u <= 13) || u == 32 || u == 0x85 || u == 0xA0 || u == 0x1680 || (0x2000 <= u && u
        <= 0x200A) || u == 0x2028 || u == 0x2029 || u == 0x202F || u == 0x205F || u == 0x3000
}

/// Bounds of the trimmed part of `v[lo..hi]`.
pub fn trim_bounds(v: &Vec<char>, lo: usize, hi: usize) -> (r: (usize, usize))
    requires
        lo <= hi <= v.len(),
    ensures
        lo <= r.0 <= r.1 <= hi,
        v@.subrange(r.0 as int, r.1 as int) == trim(v@.subrange(lo as int, hi as int)),
{
    let ghost s = v@.subrange(lo as int, hi as int);
    let mut a = lo;
    while a < hi && char_is_whitespace(v[a])
        invariant
            lo <= a <= hi <= v.len(),
            s == v@.subrange(lo as int, hi as int),
            forall|j: int| lo <= j < a ==> is_whitespace(v@[j]),
        decreases hi - a,
    {
        a = a + 1;
    }
    proof {
        lemma_trim_start_skip(s, a - lo);
        assert(s.skip(a - lo) == v@.subrange(a as int, hi as int));
        let t = v@.subrange(a as int, hi as int);
        if t.len() > 0 {
            assert(t[0] == v@[a as int]);
        }
        assert(trim_start(t) == t);
    }
    let mut b = hi;
    while b > a && char_is_whitespace(v[b - 1])
        invariant
            lo <= a <= b <= hi <= v.len(),
            forall|j: int| b <= j < hi ==> is_whitespace(v@[j]),
        decreases b,
    {
        b = b - 1;
    }
    proof {
        let t = v@.subrange(a as int, hi as int);
        lemma_trim_end_take(t, b - a);
        assert(t.take(b - a) == v@.subrange(a as int, b as int));
        let u = v@.subrange(a as int, b as int);
        if u.len() > 0 {
            assert(u.last() == v@[b - 1]);
        }
    }
    (a, b)
}

/// `str::parse::<u64>` on the characters `v[lo..hi]`.
pub fn parse_u64(v: &Vec<char>, lo: usize, hi: usize) -> (r: Option<u64>)
    requires
        lo <= hi <= v.len(),
    ensures
        r == parse_u64_spec(v@.subrange(lo as int, hi as int)),
{
    let ghost s = v@.subrange(lo as int, hi as int);
    let mut start = lo;
    if lo < hi && v[lo] == '+' {
        start = lo + 1;
    }
    assert(unsigned_body(s) == v@.subrange(start as int, hi as int));
    let ghost body = v@.subrange(start as int, hi as int);
    if start == hi {
        return None;
    }
    let mut acc: u64 = 0;
    let mut j = start;
    let mut overflow = false;
    while j < hi
        invariant
            start <= j <= hi <= v.len(),
            body == v@.subrange(start as int, hi as int),
            unsigned_body(v@.subrange(lo as int, hi as int)) == body,
            all_digits(v@.subrange(start as int, j as int)),
            !overflow ==> acc == digits_value(v@.subrange(start as int, j as int)),
            overflow ==> digits_value(v@.subrange(start as int, j as int)) > u64::MAX,
        decreases hi - j,
    {
        let c = v[j];
        let u = c as u32;
        if !(48 <= u && u <= 57) {
            assert(body[j - start] == v@[j as int]);
            assert(!is_digit(body[j - start]));
            return None;
        }
        let ghost prev = v@.subrange(start as int, j as int);
        let ghost next = v@.subrange(start as int, j + 1);
        assert(next.drop_last() == prev);
        assert(next.last() == c);
        assert(digits_value(next) == digits_value(prev) * 10 + digit_value(c));
        if !overflow {
            let d = (u - 48) as u64;
            if acc > (u64::MAX - d) / 10 {
                overflow = true;
            } else {
                acc = acc * 10 + d;
            }
        }
        assert forall|i: int| 0 <= i < next.len() implies #[trigger] is_digit(next[i]) by {
            if i < prev.len() {
                assert(next[i] == prev[i]);
            }
        }
        j = j + 1;
    }
    assert(v@.subrange(start as int, hi as int) == body);
    if overflow {
        None
    } else {
        Some(acc)
    }
}

/// Index of the first `c` in `v[lo..hi]`, counted from `lo`.
pub fn find_char(v: &Vec<char>, lo: usize, hi: usize, c: char) -> (r: Option<usize>)
    requires
        lo <= hi <= v.len(),
    ensures
        match r {
            Some(i) => lo <= i < hi && find_first(v@.subrange(lo as int, hi as int), c) == Some(
                i - lo,
            ),
            None => find_first(v@.subrange(lo as int, hi as int), c) == None::<int>,
        },
{
    let ghost s = v@.subrange(lo as int, hi as int);
    let mut i = lo;
    while i < hi
        invariant
            lo <= i <= hi <= v.len(),
            s == v@.subrange(lo as int, hi as int),
            forall|j: int| 0 <= j < i - lo ==> s[j] != c,
        decreases hi - i,
    {
        if v[i] == c {
            proof {
                lemma_find_first_at(s, c, i - lo);
            }
            return Some(i);
        }
        i = i + 1;
    }
    proof {
        lemma_find_first_none(s, c);
    }
    None
}

/// ASCII lowercase mapping of one character.
pub fn char_ascii_lower(c: char) -> (r: char)
    ensures
        r == ascii_lower(c),
{
    let u = c as u32;
    if 65 <= u && u <= 90 {
        let b: u8 = (u + 32) as u8;
        let r = b as char;
        assert((r as u32) == u + 32);
        r
    } else {
        c
    }
}

/// `eq_ignore_ascii_case` between `v[lo..hi]` and `w`.
pub fn range_eq_ignore_ascii_case(v: &Vec<char>, lo: usize, hi: usize, w: &Vec<char>) -> (r: bool)
    requires
        lo <= hi <= v.len(),
    ensures
        r == eq_ignore_ascii_case(v@.subrange(lo as int, hi as int), w@),
{
    let ghost s = v@.subrange(lo as int, hi as int);
    if hi - lo != w.len() {
        assert(to_ascii_lowercase(s).len() != to_ascii_lowercase(w@).len());
        return false;
    }
    let mut i: usize = 0;
    while i < w.len()
        invariant
            lo <= hi <= v.len(),
            hi - lo == w.len(),
            s == v@.subrange(lo as int, hi as int),
            i <= w.len(),
            forall|j: int| 0 <= j < i ==> ascii_lower(s[j]) == ascii_lower(w@[j]),
        decreases w.len() - i,
    {
        if char_ascii_lower(v[lo + i]) != char_ascii_lower(w[i]) {
            assert(to_ascii_lowercase(s)[i as int] != to_ascii_lowercase(w@)[i as int]);
            return false;
        }
        i = i + 1;
    }
    assert(to_ascii_lowercase(s) == to_ascii_lowercase(w@));
    true
}

/// Character-wise equality of two vectors.
pub fn chars_eq(a: &Vec<char>, b: &Vec<char>) -> (r: bool)
    ensures
        r == (a@ == b@),
{
    if a.len() != b.len() {
        return false;
    }
    let mut i: usize = 0;
    while i < a.len()
        invariant
            a.len() == b.len(),
            i <= a.len(),
            forall|j: int| 0 <= j < i ==> a@[j] == b@[j],
        decreases a.len() - i,
    {
        if a[i] != b[i] {
            return false;
        }
        i = i + 1;
    }
    assert(a@ == b@);
    true
}

/// Equality of two string slices.
pub fn str_eq(a: &str, b: &str) -> (r: bool)
    ensures
        r == (a@ == b@),
{
    let va = chars_of(a);
    let vb = chars_of(b);
    chars_eq(&va, &vb)
}

/// Whether `v[lo..hi]` holds exactly the characters of `w`.
pub fn range_eq(v: &Vec<char>, lo: usize, hi: usize, w: &Vec<char>) -> (r: bool)
    requires
        lo <= hi <= v.len(),
    ensures
        r == (v@.subrange(lo as int, hi as int) == w@),
{
    let ghost s = v@.subrange(lo as int, hi as int);
    if hi - lo != w.len() {
        return false;
    }
    let mut i: usize = 0;
    while i < w.len()
        invariant
            lo <= hi <= v.len(),
            hi - lo == w.len(),
            s == v@.subrange(lo as int, hi as int),
            i <= w.len(),
            forall|j: int| 0 <= j < i ==> s[j] == w@[j],
        decreases w.len() - i,
    {
        if v[lo + i] != w[i] {
            assert(s[i as int] != w@[i as int]);
            return false;
        }
        i = i + 1;
    }
    assert(s == w@);
    true
}

/// `s` starts with `prefix`.
pub open spec fn starts_with(s: Seq<char>, prefix: Seq<char>) -> bool {
    prefix.len() <= s.len() && s.take(prefix.len() as int) == prefix
}

/// Appends the decimal rendering of a 128-bit unsigned number.
pub fn push_decimal_u128(s: &mut String, n: u128)
    ensures
        final(s)@ == old(s)@ + decimal(n as nat),
    decreases n,
{
    if n >= 10 {
        push_decimal_u128(s, n / 10);
    }
    push_char(s, digit_to_char((n % 10) as u64));
    proof {
        if n < 10 {
            assert(decimal(n as nat) == seq![digit_char(n as nat)]);
        }
    }
}

/// Appends the decimal rendering of a 128-bit signed number.
pub fn push_signed_decimal_i128(s: &mut String, n: i128)
    ensures
        final(s)@ == old(s)@ + signed_decimal(n as int),
{
    if n < 0 {
        push_char(s, '-');
        let m: u128 = ((-(n + 1)) as u128) + 1;
        push_decimal_u128(s, m);
        assert(old(s)@ + signed_decimal(n as int) == old(s)@.push('-') + decimal((-n) as nat));
    } else {
        push_decimal_u128(s, n as u128);
    }
}

} // verus!
