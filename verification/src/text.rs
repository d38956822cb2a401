//! Character-level text helpers with exact specifications.
//!
//! Strings are reasoned about through their `Seq<char>` views. The spec
//! functions here mirror the `str` operations the application relies on
//! (`trim`, `starts_with`, `find`, `split`, `replace`, `chars().take(n)`),
//! and every executable helper is proved against them.
use vstd::prelude::*;

verus! {

// ─── Character classes ──────────────────────────────────────────────────────

/// The Unicode `White_Space` property: exactly the characters for which
/// `char::is_whitespace` returns `true`.
pub open spec fn is_ws(c: char) -> bool {
    let u = c as u32;
    ||| 0x09 <= u <= 0x0D
    ||| u == 0x20
    ||| u == 0x85
    ||| u == 0xA0
    ||| u == 0x1680
    ||| 0x2000 <= u <= 0x200A
    ||| u == 0x2028
    ||| u == 0x2029
    ||| u == 0x202F
    ||| u == 0x205F
    ||| u == 0x3000
}

/// Executable `char::is_whitespace`.
pub fn char_is_ws(c: char) -> (b: bool)
    ensures
        b == is_ws(c),
{
    let u = c as u32;
    (0x09 <= u && u <= 0x0D) || u == 0x20 || u == 0x85 || u == 0xA0 || u == 0x1680 || (0x2000
        <= u && u <= 0x200A) || u == 0x2028 || u == 0x2029 || u == 0x202F || u == 0x205F || u
        == 0x3000
}

/// ASCII decimal digit (`char::is_ascii_digit`).
pub open spec fn is_digit(c: char) -> bool {
    '0' <= c <= '9'
}

/// ASCII hexadecimal digit (`char::is_ascii_hexdigit`).
pub open spec fn is_hex_digit(c: char) -> bool {
    ||| '0' <= c <= '9'
    ||| 'a' <= c <= 'f'
    ||| 'A' <= c <= 'F'
}

/// ASCII character (`char::is_ascii`).
pub open spec fn is_ascii_char(c: char) -> bool {
    (c as u32) < 128
}

/// ASCII lower-casing of one character (`char::to_ascii_lowercase`).
pub open spec fn ascii_lower(c: char) -> char {
    if 'A' <= c <= 'Z' {
        ((c as u32) + 32) as char
    } else {
        c
    }
}

pub fn char_ascii_lower(c: char) -> (r: char)
    ensures
        r == ascii_lower(c),
{
    if 'A' <= c && c <= 'Z' {
        let r = ((c as u8) + 32) as char;
        r
    } else {
        c
    }
}

/// `str::to_ascii_lowercase` on a character sequence.
pub open spec fn ascii_lowercase(s: Seq<char>) -> Seq<char> {
    s.map_values(|c: char| ascii_lower(c))
}

// ─── Trimming ───────────────────────────────────────────────────────────────

/// `str::trim_start`: drop leading whitespace.
pub open spec fn trim_start(s: Seq<char>) -> Seq<char>
    decreases s.len(),
{
    if s.len() > 0 && is_ws(s[0]) {
        trim_start(s.drop_first())
    } else {
        s
    }
}

/// `str::trim_end`: drop trailing whitespace.
pub open spec fn trim_end(s: Seq<char>) -> Seq<char>
    decreases s.len(),
{
    if s.len() > 0 && is_ws(s.last()) {
        trim_end(s.drop_last())
    } else {
        s
    }
}

/// `str::trim`: drop whitespace at both ends.
pub open spec fn trim(s: Seq<char>) -> Seq<char> {
    trim_end(trim_start(s))
}

/// Every character is whitespace (so `s.trim().is_empty()`).
pub open spec fn is_blank(s: Seq<char>) -> bool {
    forall|i: int| 0 <= i < s.len() ==> is_ws(#[trigger] s[i])
}

pub proof fn lemma_trim_start_skip(s: Seq<char>, k: int)
    requires
        0 <= k <= s.len(),
        forall|i: int| 0 <= i < k ==> is_ws(#[trigger] s[i]),
        k == s.len() || !is_ws(s[k]),
    ensures
        trim_start(s) == s.skip(k),
    decreases k,
{
    if k == 0 {
        assert(s.skip(0) =~= s);
    } else {
        let t = s.drop_first();
        assert forall|i: int| 0 <= i < k - 1 implies is_ws(#[trigger] t[i]) by {
            assert(t[i] == s[i + 1]);
        }
        lemma_trim_start_skip(t, k - 1);
        assert(t.skip(k - 1) =~= s.skip(k));
    }
}

pub proof fn lemma_trim_end_take(s: Seq<char>, k: int)
    requires
        0 <= k <= s.len(),
        forall|i: int| k <= i < s.len() ==> is_ws(#[trigger] s[i]),
        k == 0 || !is_ws(s[k - 1]),
    ensures
        trim_end(s) == s.take(k),
    decreases s.len() - k,
{
    if k == s.len() {
        assert(s.take(k) =~= s);
    } else {
        let t = s.drop_last();
        assert forall|i: int| k <= i < t.len() implies is_ws(#[trigger] t[i]) by {
            assert(t[i] == s[i]);
        }
        lemma_trim_end_take(t, k);
        assert(t.take(k) =~= s.take(k));
    }
}

/// The trimmed text is empty exactly when the text is blank.
pub proof fn lemma_trim_empty_iff_blank(s: Seq<char>)
    ensures
        (trim(s).len() == 0) == is_blank(s),
{
    let k = first_non_ws(s);
    lemma_first_non_ws(s);
    lemma_trim_start_skip(s, k);
    let t = s.skip(k);
    if k == s.len() {
        assert(t.len() == 0);
        assert(trim_end(t) =~= t);
    } else {
        assert(!is_ws(t[0]));
        let e = last_non_ws_end(t);
        lemma_last_non_ws_end(t);
        lemma_trim_end_take(t, e);
        assert(e >= 1);
    }
}

/// Trimmed text starts and ends with a non-whitespace character, unless
/// it is empty.
pub proof fn lemma_trim_ends(s: Seq<char>)
    ensures
        trim(s).len() > 0 ==> !is_ws(trim(s)[0]) && !is_ws(trim(s).last()),
{
    let k = first_non_ws(s);
    lemma_first_non_ws(s);
    lemma_trim_start_skip(s, k);
    let t = s.skip(k);
    if k < s.len() {
        assert(!is_ws(t[0]));
        let e = last_non_ws_end(t);
        lemma_last_non_ws_end(t);
        lemma_trim_end_take(t, e);
        assert(e >= 1);
        assert(trim(s) == t.take(e));
        assert(trim(s)[0] == t[0]);
        assert(trim(s).last() == t[e - 1]);
    } else {
        assert(t.len() == 0);
        assert(trim_end(t) =~= t);
    }
}

/// Trimming twice is trimming once.
pub proof fn law_trim_idempotent(s: Seq<char>)
    ensures
        trim(trim(s)) == trim(s),
{
    let t = trim(s);
    lemma_trim_ends(s);
    lemma_trim_start_skip(t, 0);
    assert(t.skip(0) =~= t);
    lemma_trim_end_take(t, t.len() as int);
    assert(t.take(t.len() as int) =~= t);
}

/// Index of the first non-whitespace character (the length when none).
pub open spec fn first_non_ws(s: Seq<char>) -> int
    decreases s.len(),
{
    if s.len() > 0 && is_ws(s[0]) {
        1 + first_non_ws(s.drop_first())
    } else {
        0
    }
}

pub proof fn lemma_first_non_ws(s: Seq<char>)
    ensures
        0 <= first_non_ws(s) <= s.len(),
        forall|i: int| 0 <= i < first_non_ws(s) ==> is_ws(#[trigger] s[i]),
        first_non_ws(s) == s.len() || !is_ws(s[first_non_ws(s)]),
    decreases s.len(),
{
    if s.len() > 0 && is_ws(s[0]) {
        let t = s.drop_first();
        lemma_first_non_ws(t);
        assert forall|i: int| 0 <= i < first_non_ws(s) implies is_ws(#[trigger] s[i]) by {
            if i > 0 {
                assert(s[i] == t[i - 1]);
            }
        }
        if first_non_ws(s) < s.len() {
            assert(s[first_non_ws(s)] == t[first_non_ws(t)]);
        }
    }
}

/// One past the last non-whitespace character (0 when none).
pub open spec fn last_non_ws_end(s: Seq<char>) -> int
    decreases s.len(),
{
    if s.len() > 0 && is_ws(s.last()) {
        last_non_ws_end(s.drop_last())
    } else {
        s.len() as int
    }
}

pub proof fn lemma_last_non_ws_end(s: Seq<char>)
    ensures
        0 <= last_non_ws_end(s) <= s.len(),
        forall|i: int| last_non_ws_end(s) <= i < s.len() ==> is_ws(#[trigger] s[i]),
        last_non_ws_end(s) == 0 || !is_ws(s[last_non_ws_end(s) - 1]),
    decreases s.len(),
{
    if s.len() > 0 && is_ws(s.last()) {
        let t = s.drop_last();
        lemma_last_non_ws_end(t);
        assert forall|i: int| last_non_ws_end(s) <= i < s.len() implies is_ws(#[trigger] s[i]) by {
            if i < t.len() {
                assert(s[i] == t[i]);
            }
        }
        if last_non_ws_end(s) > 0 {
            assert(s[last_non_ws_end(s) - 1] == t[last_non_ws_end(t) - 1]);
        }
    }
}

// ─── UTF-8 length ───────────────────────────────────────────────────────────

/// Number of bytes `c` takes in UTF-8.
pub open spec fn utf8_width(c: char) -> nat {
    if (c as u32) < 0x80 {
        1
    } else if (c as u32) < 0x800 {
        2
    } else if (c as u32) < 0x10000 {
        3
    } else {
        4
    }
}

/// Number of bytes `s` takes in UTF-8 (what `str::len` reports).
pub open spec fn utf8_len(s: Seq<char>) -> nat
    decreases s.len(),
{
    if s.len() == 0 {
        0
    } else {
        utf8_len(s.drop_last()) + utf8_width(s.last())
    }
}

/// A prefix takes no more bytes than the whole.
pub proof fn lemma_utf8_len_prefix(s: Seq<char>, k: int)
    requires
        0 <= k <= s.len(),
    ensures
        utf8_len(s.take(k)) <= utf8_len(s),
    decreases s.len(),
{
    if k == s.len() {
        assert(s.take(k) =~= s);
    } else {
        lemma_utf8_len_prefix(s.drop_last(), k);
        assert(s.drop_last().take(k) =~= s.take(k));
    }
}

/// Whether `s` takes fewer than `n` bytes in UTF-8.
pub fn utf8_len_below(s: &str, n: usize) -> (r: bool)
    ensures
        r == (utf8_len(s@) < n),
{
    if n == 0 {
        return false;
    }
    let v = chars_of(s);
    let mut acc: usize = 0;
    let mut i: usize = 0;
    assert(v@.take(0) =~= Seq::<char>::empty());
    while i < v.len()
        invariant
            0 <= i <= v.len(),
            v@ == s@,
            acc == utf8_len(v@.take(i as int)),
            acc < n,
        decreases v.len() - i,
    {
        let c = v[i];
        let code = c as u32;
        let w: usize = if code < 0x80 {
            1
        } else if code < 0x800 {
            2
        } else if code < 0x10000 {
            3
        } else {
            4
        };
        assert(v@.take(i + 1).drop_last() =~= v@.take(i as int));
        if w >= n - acc {
            proof {
                lemma_utf8_len_prefix(v@, i + 1);
            }
            return false;
        }
        acc = acc + w;
        i += 1;
    }
    assert(v@.take(v.len() as int) =~= v@);
    true
}

// ─── Decimal numbers ────────────────────────────────────────────────────────

/// The digit character for `d < 10`.
pub open spec fn digit_char(d: nat) -> char {
    (48 + d) as char
}

/// The decimal digits of `n`, most significant first, without leading
/// zeros (what `n.to_string()` gives for an unsigned integer).
pub open spec fn decimal(n: nat) -> Seq<char>
    decreases n,
{
    if n < 10 {
        seq![digit_char(n)]
    } else {
        decimal(n / 10).push(digit_char(n % 10))
    }
}

/// Appends the decimal digits of `n` to `s`.
pub fn push_decimal(s: &mut String, n: u64)
    ensures
        final(s)@ == old(s)@ + decimal(n as nat),
    decreases n,
{
    if n >= 10 {
        push_decimal(s, n / 10);
    }
    let d: u8 = (n % 10) as u8;
    let c = (48u8 + d) as char;
    assert(c == digit_char((n % 10) as nat));
    push_char(s, c);
    assert(s@ =~= old(s)@ + decimal(n as nat));
}

/// `n.to_string()`.
pub fn decimal_string(n: u64) -> (r: String)
    ensures
        r@ == decimal(n as nat),
{
    let mut s = String::new();
    push_decimal(&mut s, n);
    assert(s@ =~= decimal(n as nat));
    s
}

// ─── Conversions ────────────────────────────────────────────────────────────

/// Copies the characters of `s` into a vector.
pub fn chars_of(s: &str) -> (v: Vec<char>)
    ensures
        v@ == s@,
{
    let mut v: Vec<char> = Vec::new();
    for c in it: s.chars()
        invariant
            v@ == it.seq().take(it.index() as int),
    {
        v.push(c);
    }
    v
}

/// Appends one character (`String::push`).
#[verifier::external_body]
pub(crate) fn push_char(s: &mut String, c: char)
    ensures
        final(s)@ == old(s)@.push(c),
{
    s.push(c);
}

/// Appends a string.
pub fn push_str(s: &mut String, t: &str)
    ensures
        final(s)@ == old(s)@ + t@,
{
    s.append(t);
}

/// Builds a string from the characters `v[from..to]`.
pub fn string_from_range(v: &Vec<char>, from: usize, to: usize) -> (s: String)
    requires
        from <= to <= v.len(),
    ensures
        s@ == v@.subrange(from as int, to as int),
{
    let mut s = String::new();
    let mut i: usize = from;
    while i < to
        invariant
            from <= i <= to <= v.len(),
            s@ == v@.subrange(from as int, i as int),
        decreases to - i,
    {
        push_char(&mut s, v[i]);
        i += 1;
        assert(s@ =~= v@.subrange(from as int, i as int));
    }
    s
}

/// Builds a string holding the characters of `v`.
pub fn string_from_chars(v: &Vec<char>) -> (s: String)
    ensures
        s@ == v@,
{
    let s = string_from_range(v, 0, v.len());
    assert(v@.subrange(0, v@.len() as int) =~= v@);
    s
}

/// Copies a string slice into an owned `String` (`str::to_owned`).
pub fn owned(s: &str) -> (r: String)
    ensures
        r@ == s@,
{
    let v = chars_of(s);
    string_from_chars(&v)
}

/// Character-wise equality of two sequences held in vectors.
pub fn chars_eq(a: &Vec<char>, b: &Vec<char>) -> (r: bool)
    ensures
        r == (a@ == b@),
{
    if a.len() != b.len() {
        return false;
    }
    let mut i: usize = 0;
    while i < a.len()
        invariant
            a.len() == b.len(),
            0 <= i <= a.len(),
            forall|k: int| 0 <= k < i ==> a@[k] == b@[k],
        decreases a.len() - i,
    {
        if a[i] != b[i] {
            return false;
        }
        i += 1;
    }
    assert(a@ =~= b@);
    true
}

/// `a == b` for string slices.
pub fn str_eq(a: &str, b: &str) -> (r: bool)
    ensures
        r == (a@ == b@),
{
    let va = chars_of(a);
    let vb = chars_of(b);
    chars_eq(&va, &vb)
}

// ─── Trimming, executable ───────────────────────────────────────────────────

/// The bounds `(start, end)` of `trim(v)` within `v`.
pub fn trim_bounds(v: &Vec<char>) -> (r: (usize, usize))
    ensures
        r.0 <= r.1 <= v.len(),
        trim_start(v@) == v@.skip(r.0 as int),
        trim(v@) == v@.subrange(r.0 as int, r.1 as int),
        trim_end(v@) == v@.take(last_non_ws_end(v@)),
{
    let mut i: usize = 0;
    while i < v.len() && char_is_ws(v[i])
        invariant
            0 <= i <= v.len(),
            forall|k: int| 0 <= k < i ==> is_ws(#[trigger] v@[k]),
        decreases v.len() - i,
    {
        i += 1;
    }
    let mut j: usize = v.len();
    while j > i && char_is_ws(v[j - 1])
        invariant
            i <= j <= v.len(),
            forall|k: int| j <= k < v.len() ==> is_ws(#[trigger] v@[k]),
        decreases j - i,
    {
        j -= 1;
    }
    proof {
        lemma_trim_start_skip(v@, i as int);
        let t = v@.skip(i as int);
        assert forall|k: int| (j - i) <= k < t.len() implies is_ws(#[trigger] t[k]) by {
            assert(t[k] == v@[k + i]);
        }
        if j > i {
            assert(t[j - i - 1] == v@[j - 1]);
        }
        lemma_trim_end_take(t, (j - i) as int);
        assert(t.take((j - i) as int) =~= v@.subrange(i as int, j as int));
        lemma_last_non_ws_end(v@);
        lemma_trim_end_take(v@, last_non_ws_end(v@));
    }
    (i, j)
}

/// `s.trim().to_owned()`.
pub fn trimmed(s: &str) -> (r: String)
    ensures
        r@ == trim(s@),
{
    let v = chars_of(s);
    let (a, b) = trim_bounds(&v);
    string_from_range(&v, a, b)
}

/// `s.trim_start().to_owned()`.
pub fn trimmed_start(s: &str) -> (r: String)
    ensures
        r@ == trim_start(s@),
{
    let v = chars_of(s);
    let (a, _b) = trim_bounds(&v);
    let r = string_from_range(&v, a, v.len());
    assert(v@.subrange(a as int, v@.len() as int) =~= v@.skip(a as int));
    r
}

/// `s.trim_end().to_owned()`.
pub fn trimmed_end(s: &str) -> (r: String)
    ensures
        r@ == trim_end(s@),
{
    let v = chars_of(s);
    let mut j: usize = v.len();
    while j > 0 && char_is_ws(v[j - 1])
        invariant
            j <= v.len(),
            forall|k: int| j <= k < v.len() ==> is_ws(#[trigger] v@[k]),
        decreases j,
    {
        j -= 1;
    }
    proof {
        lemma_trim_end_take(v@, j as int);
        assert(v@.take(j as int) =~= v@.subrange(0, j as int));
    }
    string_from_range(&v, 0, j)
}

/// `s.trim().is_empty()`.
pub fn is_blank_str(s: &str) -> (b: bool)
    ensures
        b == is_blank(s@),
        b == (trim(s@).len() == 0),
{
    let v = chars_of(s);
    let mut i: usize = 0;
    while i < v.len()
        invariant
            0 <= i <= v.len(),
            v@ == s@,
            forall|k: int| 0 <= k < i ==> is_ws(#[trigger] v@[k]),
        decreases v.len() - i,
    {
        if !char_is_ws(v[i]) {
            proof {
                assert(!is_ws(s@[i as int]));
                lemma_trim_empty_iff_blank(s@);
            }
            return false;
        }
        i += 1;
    }
    proof {
        lemma_trim_empty_iff_blank(s@);
    }
    true
}

// ─── Prefixes, search, split, replace ───────────────────────────────────────

/// `p` occurs in `s` at position `i`.
pub open spec fn matches_at(s: Seq<char>, p: Seq<char>, i: int) -> bool {
    0 <= i && i + p.len() <= s.len() && s.subrange(i, i + p.len()) == p
}

/// `str::starts_with`.
pub open spec fn has_prefix(s: Seq<char>, p: Seq<char>) -> bool {
    matches_at(s, p, 0)
}

/// `str::ends_with`.
pub open spec fn has_suffix(s: Seq<char>, p: Seq<char>) -> bool {
    matches_at(s, p, s.len() - p.len())
}

/// Leftmost occurrence of `p` in `s` at or after `i` (`str::find` from `i`).
pub open spec fn find_from(s: Seq<char>, p: Seq<char>, i: int) -> Option<int>
    decreases s.len() + 1 - i,
{
    if i < 0 || i + p.len() > s.len() {
        None
    } else if matches_at(s, p, i) {
        Some(i)
    } else {
        find_from(s, p, i + 1)
    }
}

/// Leftmost occurrence of `p` in `s` (`str::find`).
pub open spec fn find(s: Seq<char>, p: Seq<char>) -> Option<int> {
    find_from(s, p, 0)
}

pub proof fn lemma_find_from(s: Seq<char>, p: Seq<char>, i: int)
    requires
        0 <= i,
    ensures
        find_from(s, p, i) matches Some(k) ==> i <= k && matches_at(s, p, k) && forall|m: int|
            i <= m < k ==> !matches_at(s, p, m),
        find_from(s, p, i) is None ==> forall|m: int| i <= m ==> !matches_at(s, p, m),
    decreases s.len() + 1 - i,
{
    if i + p.len() > s.len() {
    } else if matches_at(s, p, i) {
    } else {
        lemma_find_from(s, p, i + 1);
    }
}

/// `str::split` for a non-empty pattern: the pieces between the
/// non-overlapping leftmost occurrences of `p`.
pub open spec fn split(s: Seq<char>, p: Seq<char>) -> Seq<Seq<char>>
    recommends
        p.len() > 0,
    decreases s.len(),
{
    if p.len() == 0 {
        seq![s]
    } else {
        match find(s, p) {
            None => seq![s],
            Some(i) => {
                if 0 <= i && i + p.len() <= s.len() {
                    seq![s.take(i)] + split(s.skip(i + p.len()), p)
                } else {
                    seq![s]
                }
            },
        }
    }
}

/// `str::replace` for a non-empty pattern.
pub open spec fn replace(s: Seq<char>, p: Seq<char>, r: Seq<char>) -> Seq<char>
    recommends
        p.len() > 0,
    decreases s.len(),
{
    if p.len() == 0 {
        s
    } else {
        match find(s, p) {
            None => s,
            Some(i) => {
                if 0 <= i && i + p.len() <= s.len() {
                    s.take(i) + r + replace(s.skip(i + p.len()), p, r)
                } else {
                    s
                }
            },
        }
    }
}

/// Whether `p` occurs in `v` at position `i`.
pub fn matches_at_exec(v: &Vec<char>, p: &Vec<char>, i: usize) -> (b: bool)
    ensures
        b == matches_at(v@, p@, i as int),
{
    if i > v.len() || p.len() > v.len() - i {
        return false;
    }
    let mut k: usize = 0;
    while k < p.len()
        invariant
            i + p.len() <= v.len(),
            0 <= k <= p.len(),
            forall|m: int| 0 <= m < k ==> v@[i + m] == p@[m],
        decreases p.len() - k,
    {
        if v[i + k] != p[k] {
            assert(v@.subrange(i as int, i + p.len())[k as int] != p@[k as int]);
            return false;
        }
        k += 1;
    }
    assert(v@.subrange(i as int, i + p.len()) =~= p@);
    true
}

/// Leftmost occurrence of `p` in `v` at or after `from`.
pub fn find_from_exec(v: &Vec<char>, p: &Vec<char>, from: usize) -> (r: Option<usize>)
    ensures
        r matches Some(k) ==> find_from(v@, p@, from as int) == Some(k as int),
        r is None ==> find_from(v@, p@, from as int) is None,
{
    let mut i: usize = from;
    if i > v.len() || p.len() > v.len() - i {
        return None;
    }
    if p.len() == 0 {
        assert(v@.subrange(i as int, i as int) =~= p@);
        return Some(i);
    }
    while p.len() <= v.len() - i
        invariant
            from <= i <= v.len(),
            p.len() >= 1,
            find_from(v@, p@, from as int) == find_from(v@, p@, i as int),
        decreases v.len() - i,
    {
        if matches_at_exec(v, p, i) {
            return Some(i);
        }
        i += 1;
    }
    None
}

/// Leftmost occurrence of the string `p` in `s` (`str::find`), in characters.
pub fn find_str(s: &str, p: &str) -> (r: Option<usize>)
    ensures
        r matches Some(k) ==> find(s@, p@) == Some(k as int),
        r is None ==> find(s@, p@) is None,
{
    let v = chars_of(s);
    let q = chars_of(p);
    find_from_exec(&v, &q, 0)
}

/// `s.starts_with(p)`.
pub fn starts_with(s: &str, p: &str) -> (b: bool)
    ensures
        b == has_prefix(s@, p@),
{
    let v = chars_of(s);
    let q = chars_of(p);
    matches_at_exec(&v, &q, 0)
}

/// `s.ends_with(p)`.
pub fn ends_with(s: &str, p: &str) -> (b: bool)
    ensures
        b == has_suffix(s@, p@),
{
    let v = chars_of(s);
    let q = chars_of(p);
    if q.len() > v.len() {
        return false;
    }
    matches_at_exec(&v, &q, v.len() - q.len())
}

/// `s.strip_prefix(p).map(str::to_owned)`.
pub fn strip_prefix(s: &str, p: &str) -> (r: Option<String>)
    ensures
        r matches Some(t) ==> has_prefix(s@, p@) && t@ == s@.skip(p@.len() as int),
        r is None ==> !has_prefix(s@, p@),
{
    let v = chars_of(s);
    let q = chars_of(p);
    if matches_at_exec(&v, &q, 0) {
        let t = string_from_range(&v, q.len(), v.len());
        assert(v@.subrange(q@.len() as int, v@.len() as int) =~= v@.skip(q@.len() as int));
        Some(t)
    } else {
        None
    }
}

/// The pieces of `s.split(p)` for a non-empty pattern `p`.
pub fn split_str(s: &str, p: &str) -> (parts: Vec<String>)
    requires
        p@.len() > 0,
    ensures
        parts@.len() == split(s@, p@).len(),
        forall|i: int| 0 <= i < parts@.len() ==> #[trigger] parts@[i]@ == split(s@, p@)[i],
{
    let v = chars_of(s);
    let q = chars_of(p);
    let mut parts: Vec<String> = Vec::new();
    let mut start: usize = 0;
    assert(v@.skip(0) =~= s@);
    assert(parts@.map_values(|t: String| t@) + split(s@, p@) =~= split(s@, p@));
    loop
        invariant
            q@ == p@,
            v@ == s@,
            q@.len() > 0,
            start <= v.len(),
            forall|i: int|
                0 <= i < parts@.len() ==> #[trigger] parts@[i]@ == split(s@, p@)[i],
            split(s@, p@) == parts@.map_values(|t: String| t@) + split(
                v@.skip(start as int),
                p@,
            ),
        decreases v.len() - start,
    {
        let tail = Ghost(v@.skip(start as int));
        match find_from_exec(&v, &q, start) {
            None => {
                proof {
                    lemma_find_from(v@, q@, start as int);
                    lemma_find_from(tail@, q@, 0);
                    if let Some(k) = find(tail@, q@) {
                        assert(tail@.subrange(k, k + q@.len()) =~= v@.subrange(
                            k + start,
                            k + start + q@.len(),
                        ));
                        assert(matches_at(v@, q@, k + start));
                    }
                }
                let last = string_from_range(&v, start, v.len());
                assert(last@ =~= tail@);
                parts.push(last);
                proof {
                    assert(split(tail@, p@) == seq![tail@]);
                    assert(split(s@, p@) =~= parts@.map_values(|t: String| t@));
                    assert(split(s@, p@).len() == parts@.len());
                }
                return parts;
            },
            Some(k) => {
                proof {
                    lemma_find_from(v@, q@, start as int);
                    lemma_find_from(tail@, q@, 0);
                    let kk = (k - start) as int;
                    assert(tail@.subrange(kk, kk + q@.len()) =~= v@.subrange(
                        k as int,
                        k + q@.len(),
                    ));
                    assert(matches_at(tail@, q@, kk));
                    if let Some(k2) = find(tail@, q@) {
                        assert(tail@.subrange(k2, k2 + q@.len()) =~= v@.subrange(
                            k2 + start,
                            k2 + start + q@.len(),
                        ));
                        assert(matches_at(v@, q@, k2 + start));
                        assert(k2 == kk);
                    }
                    assert(find(tail@, q@) == Some(kk));
                    assert(tail@.skip(kk + q@.len()) =~= v@.skip(k + q@.len()));
                    assert(tail@.take(kk) =~= v@.subrange(start as int, k as int));
                }
                let piece = string_from_range(&v, start, k);
                let ghost old_parts = parts@;
                parts.push(piece);
                proof {
                    assert(parts@.map_values(|t: String| t@) =~= old_parts.map_values(
                        |t: String| t@,
                    ).push(piece@));
                    assert(split(s@, p@) =~= parts@.map_values(|t: String| t@) + split(
                        v@.skip(k + q@.len()),
                        p@,
                    ));
                    assert forall|i: int|
                        0 <= i < parts@.len() implies #[trigger] parts@[i]@ == split(s@, p@)[i] by {
                        if i < old_parts.len() {
                            assert(parts@[i] == old_parts[i]);
                        } else {
                            assert(split(s@, p@)[i] == parts@.map_values(|t: String| t@)[i]);
                        }
                    }
                }
                start = k + q.len();
            },
        }
    }
}

/// `s.replace(p, r)` for a non-empty pattern `p`.
pub fn replace_str(s: &str, p: &str, r: &str) -> (out: String)
    requires
        p@.len() > 0,
    ensures
        out@ == replace(s@, p@, r@),
{
    let v = chars_of(s);
    let q = chars_of(p);
    let mut out = String::new();
    let mut start: usize = 0;
    assert(v@.skip(0) =~= s@);
    assert(out@ + replace(s@, p@, r@) =~= replace(s@, p@, r@));
    loop
        invariant
            q@ == p@,
            v@ == s@,
            q@.len() > 0,
            start <= v.len(),
            replace(s@, p@, r@) == out@ + replace(v@.skip(start as int), p@, r@),
        decreases v.len() - start,
    {
        let tail = Ghost(v@.skip(start as int));
        match find_from_exec(&v, &q, start) {
            None => {
                proof {
                    lemma_find_from(v@, q@, start as int);
                    lemma_find_from(tail@, q@, 0);
                    if let Some(k) = find(tail@, q@) {
                        assert(tail@.subrange(k, k + q@.len()) =~= v@.subrange(
                            k + start,
                            k + start + q@.len(),
                        ));
                        assert(matches_at(v@, q@, k + start));
                    }
                }
                let last = string_from_range(&v, start, v.len());
                assert(last@ =~= tail@);
                push_str(&mut out, last.as_str());
                return out;
            },
            Some(k) => {
                proof {
                    lemma_find_from(v@, q@, start as int);
                    lemma_find_from(tail@, q@, 0);
                    let kk = (k - start) as int;
                    assert(tail@.subrange(kk, kk + q@.len()) =~= v@.subrange(
                        k as int,
                        k + q@.len(),
                    ));
                    assert(matches_at(tail@, q@, kk));
                    if let Some(k2) = find(tail@, q@) {
                        assert(tail@.subrange(k2, k2 + q@.len()) =~= v@.subrange(
                            k2 + start,
                            k2 + start + q@.len(),
                        ));
                        assert(matches_at(v@, q@, k2 + start));
                        assert(k2 == kk);
                    }
                    assert(find(tail@, q@) == Some(kk));
                    assert(tail@.skip(kk + q@.len()) =~= v@.skip(k + q@.len()));
                    assert(tail@.take(kk) =~= v@.subrange(start as int, k as int));
                }
                let piece = string_from_range(&v, start, k);
                push_str(&mut out, piece.as_str());
                push_str(&mut out, r);
                start = k + q.len();
                assert(replace(s@, p@, r@) =~= out@ + replace(v@.skip(start as int), p@, r@));
            },
        }
    }
}

/// The first `n` characters of `s` (`s.chars().take(n).collect()`).
pub fn take_chars(s: &str, n: usize) -> (r: String)
    ensures
        r@ == s@.take(if n < s@.len() { n as int } else { s@.len() as int }),
{
    let v = chars_of(s);
    let end = if n < v.len() {
        n
    } else {
        v.len()
    };
    let r = string_from_range(&v, 0, end);
    assert(r@ =~= s@.take(end as int));
    r
}

/// `s.to_ascii_lowercase()`.
pub fn ascii_lowercase_str(s: &str) -> (r: String)
    ensures
        r@ == ascii_lowercase(s@),
{
    let v = chars_of(s);
    let mut r = String::new();
    let mut i: usize = 0;
    while i < v.len()
        invariant
            0 <= i <= v.len(),
            v@ == s@,
            r@ == ascii_lowercase(v@.take(i as int)),
        decreases v.len() - i,
    {
        let c = char_ascii_lower(v[i]);
        push_char(&mut r, c);
        assert(ascii_lowercase(v@.take(i + 1)) =~= ascii_lowercase(v@.take(i as int)).push(c));
        i += 1;
    }
    assert(v@.take(v@.len() as int) =~= v@);
    r
}

} // verus!
