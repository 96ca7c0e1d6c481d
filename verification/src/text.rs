//! Character-level text utilities shared by forms, search, validation and pagination.
//!
//! Texts are modelled by their views, sequences of `char`. Positions are character
//! positions, never byte offsets.

use vstd::prelude::*;
use vstd::std_specs::iter::IteratorSpec;

verus! {

broadcast use vstd::string::group_string_axioms;

// ---------------------------------------------------------------------------
// Specifications
// ---------------------------------------------------------------------------

/// Unicode `White_Space`, the set that `char::is_whitespace` accepts.
pub open spec fn is_ws(c: char) -> bool {
    let u = c as u32;
    ||| 0x09 <= u <= 0x0D
    ||| u == 0x20
    ||| u == 0x85
    ||| u == 0xA0
    ||| u == 0x1680
    ||| 0x2000 <= u <= 0x200A
    ||| u == 0x2028
    ||| u == 0x2029
    ||| u == 0x202F
    ||| u == 0x205F
    ||| u == 0x3000
}

/// The text without its leading white space.
pub open spec fn trim_start(s: Seq<char>) -> Seq<char>
    decreases s.len(),
{
    if s.len() > 0 && is_ws(s[0]) {
        trim_start(s.drop_first())
    } else {
        s
    }
}

/// The text without its trailing white space.
pub open spec fn trim_end(s: Seq<char>) -> Seq<char>
    decreases s.len(),
{
    if s.len() > 0 && is_ws(s.last()) {
        trim_end(s.drop_last())
    } else {
        s
    }
}

/// The text without leading and trailing white space (`str::trim`).
pub open spec fn trimmed(s: Seq<char>) -> Seq<char> {
    trim_end(trim_start(s))
}

/// ASCII lower-casing of one character (`char::to_ascii_lowercase`).
pub open spec fn ascii_lower_char(c: char) -> char {
    if 'A' <= c <= 'Z' {
        ((c as u32) + 32) as char
    } else {
        c
    }
}

/// ASCII lower-casing of a text (`str::to_ascii_lowercase`).
pub open spec fn ascii_lower(s: Seq<char>) -> Seq<char> {
    s.map_values(|c: char| ascii_lower_char(c))
}

/// An ASCII decimal digit.
pub open spec fn is_digit(c: char) -> bool {
    '0' <= c <= '9'
}

/// An ASCII hexadecimal digit (`char::is_ascii_hexdigit`).
pub open spec fn is_hex_digit(c: char) -> bool {
    ||| '0' <= c <= '9'
    ||| 'a' <= c <= 'f'
    ||| 'A' <= c <= 'F'
}

/// `prefix` starts `s`.
pub open spec fn has_prefix(s: Seq<char>, prefix: Seq<char>) -> bool {
    prefix.len() <= s.len() && s.subrange(0, prefix.len() as int) == prefix
}

/// Position of the first `c` in `s`, or the length of `s` when there is none.
pub open spec fn first_index_of(s: Seq<char>, c: char) -> nat
    decreases s.len(),
{
    if s.len() == 0 {
        0
    } else if s[0] == c {
        0
    } else {
        1 + first_index_of(s.drop_first(), c)
    }
}

/// Drops one trailing carriage return.
pub open spec fn strip_cr(s: Seq<char>) -> Seq<char> {
    if s.len() > 0 && s.last() == '\r' {
        s.drop_last()
    } else {
        s
    }
}

/// The lines of a text as `str::lines` yields them: split at `\n`, a `\r` right
/// before a `\n` dropped, and no final empty line after a trailing `\n`.
pub open spec fn lines_of(s: Seq<char>) -> Seq<Seq<char>>
    decreases s.len(),
{
    if s.len() == 0 {
        Seq::empty()
    } else {
        let i = first_index_of(s, '\n');
        if i >= s.len() {
            seq![s]
        } else {
            seq![strip_cr(s.subrange(0, i as int))] + lines_of(s.subrange((i + 1) as int, s.len() as int))
        }
    }
}

/// The lines joined with `\n` between them (`join("\n")`).
pub open spec fn joined(lines: Seq<Seq<char>>) -> Seq<char>
    decreases lines.len(),
{
    if lines.len() == 0 {
        Seq::empty()
    } else if lines.len() == 1 {
        lines[0]
    } else {
        joined(lines.drop_last()) + seq!['\n'] + lines.last()
    }
}

/// Numeric value of a digit character.
pub open spec fn digit_value(c: char) -> nat {
    ((c as u32) - ('0' as u32)) as nat
}

/// Decimal value of a sequence of digits.
pub open spec fn decimal_value(d: Seq<char>) -> nat
    decreases d.len(),
{
    if d.len() == 0 {
        0
    } else {
        decimal_value(d.drop_last()) * 10 + digit_value(d.last())
    }
}

/// The digits that `u64::from_str` reads: one leading `+` is skipped when more follows.
pub open spec fn unsigned_digits(s: Seq<char>) -> Seq<char> {
    if s.len() > 1 && s[0] == '+' {
        s.drop_first()
    } else {
        s
    }
}

/// What `u64::from_str` returns: the value of a non-empty run of decimal digits,
/// optionally behind one `+`, when it fits in a `u64`; `None` otherwise.
pub open spec fn parse_u64_spec(s: Seq<char>) -> Option<u64> {
    let d = unsigned_digits(s);
    if s.len() > 0 && (forall|i: int| 0 <= i < d.len() ==> is_digit(#[trigger] d[i]))
        && decimal_value(d) <= u64::MAX {
        Some(decimal_value(d) as u64)
    } else {
        None
    }
}

/// Character of a digit value below ten.
pub open spec fn digit_char(n: nat) -> char {
    ((n + ('0' as u32)) as u32) as char
}

/// Decimal representation of a natural number, without leading zeros.
pub open spec fn decimal_text(n: nat) -> Seq<char>
    decreases n,
{
    if n < 10 {
        seq![digit_char(n)]
    } else {
        decimal_text(n / 10).push(digit_char(n % 10))
    }
}

/// Decimal representation of an integer, with a `-` for negative values.
pub open spec fn signed_decimal_text(n: int) -> Seq<char> {
    if n < 0 {
        seq!['-'] + decimal_text((-n) as nat)
    } else {
        decimal_text(n as nat)
    }
}

/// The view of an optional text.
pub open spec fn opt_view(o: Option<String>) -> Option<Seq<char>> {
    match o {
        Some(s) => Some(s@),
        None => None,
    }
}

/// Unicode lower-casing of a text, as `str::to_lowercase` computes it.
pub uninterp spec fn unicode_lowercase(s: Seq<char>) -> Seq<char>;

// ---------------------------------------------------------------------------
// Trusted access to std
// ---------------------------------------------------------------------------

/// `String::push`: the character is appended at the end.
#[verifier::external_body]
pub(crate) fn push_char(s: &mut String, c: char)
    ensures
        final(s)@ == old(s)@.push(c),
{
    s.push(c)
}

/// Every character is ASCII.
pub open spec fn all_ascii(s: Seq<char>) -> bool {
    forall|i: int| 0 <= i < s.len() ==> (#[trigger] s[i] as u32) < 128
}

/// `str::to_lowercase`: the full Unicode mapping, named `unicode_lowercase`.
/// Claimed: the result depends on the text alone, and an ASCII text lower-cases
/// as `str::to_ascii_lowercase` does (Unicode maps `A`..`Z` to `a`..`z` and
/// leaves the other ASCII characters as they are). The mapping of other
/// characters is left unsaid.
#[verifier::external_body]
pub(crate) fn to_lowercase(s: &str) -> (out: String)
    ensures
        out@ == unicode_lowercase(s@),
        all_ascii(s@) ==> out@ == ascii_lower(s@),
{
    s.to_lowercase()
}

// ---------------------------------------------------------------------------
// Lemmas
// ---------------------------------------------------------------------------

/// `first_index_of` is the position of the first occurrence.
pub proof fn lemma_first_index(s: Seq<char>, c: char, j: int)
    requires
        0 <= j <= s.len(),
        forall|k: int| 0 <= k < j ==> s[k] != c,
        j == s.len() || s[j] == c,
    ensures
        first_index_of(s, c) == j,
    decreases s.len(),
{
    if s.len() > 0 && s[0] != c {
        lemma_first_index(s.drop_first(), c, j - 1);
    }
}

/// Leading white space found by a scan is what `trim_start` drops.
proof fn lemma_trim_start(s: Seq<char>, i: int)
    requires
        0 <= i <= s.len(),
        forall|k: int| 0 <= k < i ==> is_ws(s[k]),
        i == s.len() || !is_ws(s[i]),
    ensures
        trim_start(s) == s.subrange(i, s.len() as int),
    decreases s.len(),
{
    if i > 0 {
        lemma_trim_start(s.drop_first(), i - 1);
        assert(s.drop_first().subrange(i - 1, s.len() - 1) =~= s.subrange(i, s.len() as int));
    } else {
        assert(s.subrange(0, s.len() as int) =~= s);
    }
}

/// Trailing white space found by a scan is what `trim_end` drops.
proof fn lemma_trim_end(s: Seq<char>, j: int)
    requires
        0 <= j <= s.len(),
        forall|k: int| j <= k < s.len() ==> is_ws(s[k]),
        j == 0 || !is_ws(s[j - 1]),
    ensures
        trim_end(s) == s.subrange(0, j),
    decreases s.len(),
{
    if j < s.len() {
        lemma_trim_end(s.drop_last(), j);
        assert(s.drop_last().subrange(0, j) =~= s.subrange(0, j));
    } else {
        assert(s.subrange(0, s.len() as int) =~= s);
    }
}

/// The value of a prefix of digits never exceeds the value of the whole.
pub proof fn lemma_decimal_prefix(d: Seq<char>, i: int)
    requires
        0 <= i <= d.len(),
    ensures
        decimal_value(d.subrange(0, i)) <= decimal_value(d),
    decreases d.len(),
{
    if i < d.len() {
        lemma_decimal_prefix(d.drop_last(), i);
        assert(d.drop_last().subrange(0, i) =~= d.subrange(0, i));
    } else {
        assert(d.subrange(0, i) =~= d);
    }
}

/// Adding one line to the joined text.
proof fn lemma_joined_push(lines: Seq<Seq<char>>, line: Seq<char>)
    requires
        lines.len() > 0,
    ensures
        joined(lines.push(line)) == joined(lines) + seq!['\n'] + line,
{
    assert(lines.push(line).drop_last() =~= lines);
}

/// Joining two non-empty runs of lines puts one `\n` between their texts.
pub proof fn lemma_joined_append(a: Seq<Seq<char>>, b: Seq<Seq<char>>)
    requires
        a.len() > 0,
        b.len() > 0,
    ensures
        joined(a + b) == joined(a) + seq!['\n'] + joined(b),
    decreases b.len(),
{
    if b.len() == 1 {
        assert(a + b =~= a.push(b[0]));
        lemma_joined_push(a, b[0]);
    } else {
        let b1 = b.drop_last();
        lemma_joined_append(a, b1);
        assert(a + b =~= (a + b1).push(b.last()));
        lemma_joined_push(a + b1, b.last());
        assert(joined(b) == joined(b1) + seq!['\n'] + b.last());
        assert(joined(a + b) =~= joined(a) + seq!['\n'] + joined(b));
    }
}

// ---------------------------------------------------------------------------
// Executable helpers
// ---------------------------------------------------------------------------

/// Collects the characters of `s` into a vector.
pub fn chars_of(s: &str) -> (out: Vec<char>)
    ensures
        out@ == s@,
{
    let mut out: Vec<char> = Vec::new();
    let mut it = s.chars();
    let ghost total = s@;
    loop
        invariant
            it.obeys_prophetic_iter_laws(),
            total == s@,
            out@ + it.remaining() == total,
            it.decrease() is Some,
        decreases it.decrease()->0,
    {
        match it.next() {
            Some(c) => {
                out.push(c);
            },
            None => {
                assert(out@ =~= total);
                return out;
            },
        }
    }
}

/// Builds a `String` from the characters `cs[lo..hi]`.
pub fn string_from(cs: &Vec<char>, lo: usize, hi: usize) -> (out: String)
    requires
        lo <= hi <= cs.len(),
    ensures
        out@ == cs@.subrange(lo as int, hi as int),
{
    let mut out = String::new();
    let mut i = lo;
    while i < hi
        invariant
            lo <= i <= hi <= cs.len(),
            out@ == cs@.subrange(lo as int, i as int),
        decreases hi - i,
    {
        push_char(&mut out, cs[i]);
        assert(cs@.subrange(lo as int, i + 1) =~= cs@.subrange(lo as int, i as int).push(cs@[i as int]));
        i += 1;
    }
    out
}

/// Copies a `str` into a new `String`.
pub fn owned(s: &str) -> (out: String)
    ensures
        out@ == s@,
{
    String::from_str(s)
}

/// Appends `tail` to `head` and returns the result.
pub fn concat(head: &str, tail: &str) -> (out: String)
    ensures
        out@ == head@ + tail@,
{
    let mut out = String::from_str(head);
    out.append(tail);
    out
}

/// The text with `ch` inserted before character position `at`.
pub fn insert_at(s: &str, at: usize, ch: char) -> (out: String)
    requires
        at <= s@.len(),
    ensures
        out@ == s@.subrange(0, at as int) + seq![ch] + s@.subrange(at as int, s@.len() as int),
{
    let cs = chars_of(s);
    let mut out = string_from(&cs, 0, at);
    push_char(&mut out, ch);
    let tail = string_from(&cs, at, cs.len());
    out.append(tail.as_str());
    out
}

/// The text without the characters at positions `lo..hi`.
pub fn remove_range(s: &str, lo: usize, hi: usize) -> (out: String)
    requires
        lo <= hi <= s@.len(),
    ensures
        out@ == s@.subrange(0, lo as int) + s@.subrange(hi as int, s@.len() as int),
{
    let cs = chars_of(s);
    let mut out = string_from(&cs, 0, lo);
    let tail = string_from(&cs, hi, cs.len());
    out.append(tail.as_str());
    out
}

/// Whether every character is an ASCII decimal digit (`chars().all(is_ascii_digit)`).
pub fn all_digits(s: &str) -> (b: bool)
    ensures
        b == (forall|i: int| 0 <= i < s@.len() ==> is_digit(#[trigger] s@[i])),
{
    let cs = chars_of(s);
    let mut i: usize = 0;
    while i < cs.len()
        invariant
            cs@ == s@,
            0 <= i <= cs.len(),
            forall|k: int| 0 <= k < i ==> is_digit(#[trigger] cs@[k]),
        decreases cs.len() - i,
    {
        let c = cs[i];
        if !('0' <= c && c <= '9') {
            assert(!is_digit(cs@[i as int]));
            return false;
        }
        i += 1;
    }
    true
}

/// Number of characters of a text.
pub fn char_count(s: &str) -> (n: usize)
    ensures
        n == s@.len(),
{
    s.unicode_len()
}

/// Equality of two texts by their characters.
pub fn text_eq(a: &str, b: &str) -> (eq: bool)
    ensures
        eq == (a@ == b@),
{
    let ca = chars_of(a);
    let cb = chars_of(b);
    if ca.len() != cb.len() {
        return false;
    }
    let mut i: usize = 0;
    while i < ca.len()
        invariant
            ca@ == a@,
            cb@ == b@,
            ca.len() == cb.len(),
            0 <= i <= ca.len(),
            forall|k: int| 0 <= k < i ==> ca@[k] == cb@[k],
        decreases ca.len() - i,
    {
        if ca[i] != cb[i] {
            return false;
        }
        i += 1;
    }
    assert(ca@ =~= cb@);
    true
}

/// Whether `c` is white space (`char::is_whitespace`).
pub fn is_whitespace(c: char) -> (b: bool)
    ensures
        b == is_ws(c),
{
    let u = c as u32;
    (0x09 <= u && u <= 0x0D) || u == 0x20 || u == 0x85 || u == 0xA0 || u == 0x1680 || (0x2000
        <= u && u <= 0x200A) || u == 0x2028 || u == 0x2029 || u == 0x202F || u == 0x205F || u
        == 0x3000
}

/// Positions `(lo, hi)` such that `cs[lo..hi]` is the trimmed text.
pub fn trim_bounds(cs: &Vec<char>) -> (r: (usize, usize))
    ensures
        r.0 <= r.1 <= cs.len(),
        cs@.subrange(r.0 as int, r.1 as int) == trimmed(cs@),
{
    let n = cs.len();
    let mut lo: usize = 0;
    while lo < n && is_whitespace(cs[lo])
        invariant
            n == cs.len(),
            0 <= lo <= n,
            forall|k: int| 0 <= k < lo ==> is_ws(cs@[k]),
        decreases n - lo,
    {
        lo += 1;
    }
    proof {
        lemma_trim_start(cs@, lo as int);
    }
    let ghost rest = cs@.subrange(lo as int, n as int);
    let mut hi: usize = n;
    while hi > lo && is_whitespace(cs[hi - 1])
        invariant
            n == cs.len(),
            lo <= hi <= n,
            rest == cs@.subrange(lo as int, n as int),
            forall|k: int| hi <= k < n ==> is_ws(cs@[k]),
        decreases hi - lo,
    {
        hi -= 1;
    }
    proof {
        lemma_trim_end(rest, (hi - lo) as int);
        assert(rest.subrange(0, (hi - lo) as int) =~= cs@.subrange(lo as int, hi as int));
    }
    (lo, hi)
}

/// The text without leading and trailing white space (`str::trim`).
pub fn trim(s: &str) -> (out: String)
    ensures
        out@ == trimmed(s@),
{
    let cs = chars_of(s);
    let (lo, hi) = trim_bounds(&cs);
    string_from(&cs, lo, hi)
}

/// ASCII lower-casing of a text (`str::to_ascii_lowercase`).
pub fn to_ascii_lowercase(s: &str) -> (out: String)
    ensures
        out@ == ascii_lower(s@),
{
    let cs = chars_of(s);
    let mut out = String::new();
    let mut i: usize = 0;
    while i < cs.len()
        invariant
            cs@ == s@,
            0 <= i <= cs.len(),
            out@ == ascii_lower(cs@.subrange(0, i as int)),
        decreases cs.len() - i,
    {
        let c = cs[i];
        let lc = if 'A' <= c && c <= 'Z' {
            (((c as u32) as u8) + 32) as char
        } else {
            c
        };
        assert(lc == ascii_lower_char(c));
        push_char(&mut out, lc);
        assert(ascii_lower(cs@.subrange(0, i + 1)) =~= ascii_lower(cs@.subrange(0, i as int)).push(
            lc,
        ));
        i += 1;
    }
    assert(cs@.subrange(0, cs.len() as int) =~= cs@);
    out
}

/// Whether `prefix` starts `s` (`str::starts_with`).
pub fn starts_with(s: &str, prefix: &str) -> (b: bool)
    ensures
        b == has_prefix(s@, prefix@),
{
    let cs = chars_of(s);
    let cp = chars_of(prefix);
    if cp.len() > cs.len() {
        return false;
    }
    let mut i: usize = 0;
    while i < cp.len()
        invariant
            cs@ == s@,
            cp@ == prefix@,
            cp.len() <= cs.len(),
            0 <= i <= cp.len(),
            forall|k: int| 0 <= k < i ==> cs@[k] == cp@[k],
        decreases cp.len() - i,
    {
        if cs[i] != cp[i] {
            assert(cs@.subrange(0, cp.len() as int)[i as int] != cp@[i as int]);
            return false;
        }
        i += 1;
    }
    assert(cs@.subrange(0, cp.len() as int) =~= cp@);
    true
}

/// The lines of `cs[lo..]` as `str::lines` yields them.
pub fn lines_from(cs: &Vec<char>, lo: usize) -> (out: Vec<String>)
    requires
        lo <= cs.len(),
    ensures
        out.deep_view() == lines_of(cs@.subrange(lo as int, cs.len() as int)),
{
    let n = cs.len();
    let mut out: Vec<String> = Vec::new();
    let mut start = lo;
    let mut i = lo;
    while i < n
        invariant
            n == cs.len(),
            lo <= start <= i <= n,
            forall|k: int| start <= k < i ==> cs@[k] != '\n',
            out.deep_view() + lines_of(cs@.subrange(start as int, n as int)) == lines_of(
                cs@.subrange(lo as int, n as int),
            ),
        decreases n - i,
    {
        if cs[i] == '\n' {
            let ghost s = cs@.subrange(start as int, n as int);
            proof {
                lemma_first_index(s, '\n', (i - start) as int);
                assert(s.subrange(0, (i - start) as int) =~= cs@.subrange(start as int, i as int));
                assert(s.subrange((i - start + 1) as int, s.len() as int) =~= cs@.subrange(
                    i + 1,
                    n as int,
                ));
            }
            let end = if i > start && cs[i - 1] == '\r' {
                i - 1
            } else {
                i
            };
            let line = string_from(cs, start, end);
            proof {
                let seg = cs@.subrange(start as int, i as int);
                if end < i {
                    assert(seg.len() > 0 && seg.last() == '\r');
                    assert(seg.drop_last() =~= line@);
                } else {
                    assert(!(seg.len() > 0 && seg.last() == '\r'));
                    assert(seg =~= line@);
                }
                assert(line@ =~= strip_cr(seg));
            }
            let ghost before = out.deep_view();
            out.push(line);
            proof {
                assert(out.deep_view() =~= before.push(line@));
                assert(out.deep_view() + lines_of(cs@.subrange(i + 1, n as int)) =~= before + (
                seq![line@] + lines_of(cs@.subrange(i + 1, n as int))));
            }
            start = i + 1;
        }
        i += 1;
    }
    if start < n {
        let ghost s = cs@.subrange(start as int, n as int);
        proof {
            lemma_first_index(s, '\n', s.len() as int);
        }
        let line = string_from(cs, start, n);
        let ghost before = out.deep_view();
        out.push(line);
        proof {
            assert(out.deep_view() =~= before.push(line@));
            assert(lines_of(s) == seq![s]);
            assert(before + seq![s] =~= before.push(s));
        }
    } else {
        proof {
            assert(out.deep_view() + lines_of(cs@.subrange(start as int, n as int)) =~= out.deep_view());
        }
    }
    out
}

/// The lines of a text as `str::lines` yields them.
pub fn lines(s: &str) -> (out: Vec<String>)
    ensures
        out.deep_view() == lines_of(s@),
{
    let cs = chars_of(s);
    proof {
        assert(cs@.subrange(0, cs.len() as int) =~= cs@);
    }
    lines_from(&cs, 0)
}

/// Joins `lines[lo..hi]` with `\n` between them.
pub fn join_lines(lines: &Vec<String>, lo: usize, hi: usize) -> (out: String)
    requires
        lo <= hi <= lines.len(),
    ensures
        out@ == joined(lines.deep_view().subrange(lo as int, hi as int)),
{
    let mut out = String::new();
    let ghost dv = lines.deep_view();
    if lo == hi {
        assert(dv.subrange(lo as int, hi as int).len() == 0);
        return out;
    }
    out.append(lines[lo].as_str());
    assert(dv.subrange(lo as int, lo + 1) =~= seq![dv[lo as int]]);
    let mut i = lo + 1;
    while i < hi
        invariant
            dv == lines.deep_view(),
            lo < i <= hi <= lines.len(),
            out@ == joined(dv.subrange(lo as int, i as int)),
        decreases hi - i,
    {
        push_char(&mut out, '\n');
        out.append(lines[i].as_str());
        proof {
            lemma_joined_push(dv.subrange(lo as int, i as int), dv[i as int]);
            assert(dv.subrange(lo as int, i + 1) =~= dv.subrange(lo as int, i as int).push(
                dv[i as int],
            ));
        }
        i += 1;
    }
    out
}

/// The trimmed, non-empty pieces between commas of `cs[lo..]`, in order.
pub fn comma_items_from(cs: &Vec<char>, lo: usize) -> (out: Vec<String>)
    requires
        lo <= cs.len(),
    ensures
        out.deep_view() == list_items(cs@.subrange(lo as int, cs.len() as int)),
{
    let n = cs.len();
    let mut out: Vec<String> = Vec::new();
    let mut start = lo;
    let mut i = lo;
    while i <= n
        invariant
            n == cs.len(),
            lo <= start <= i <= n,
            forall|k: int| start <= k < i && k < n ==> cs@[k] != ',',
            out.deep_view() + list_items(cs@.subrange(start as int, n as int)) == list_items(
                cs@.subrange(lo as int, n as int),
            ),
        decreases n + 1 - i,
    {
        if i == n || cs[i] == ',' {
            let ghost s = cs@.subrange(start as int, n as int);
            proof {
                lemma_first_index(s, ',', (i - start) as int);
            }
            let piece = string_from(cs, start, i);
            let ghost p = cs@.subrange(start as int, i as int);
            let t = trim(piece.as_str());
            let ghost before = out.deep_view();
            if char_count(t.as_str()) > 0 {
                out.push(t);
                proof {
                    assert(out.deep_view() =~= before.push(trimmed(p)));
                }
            }
            if i == n {
                proof {
                    assert(s.subrange(0, (i - start) as int) =~= p);
                    assert(list_items(s) == item_of(p));
                    assert(out.deep_view() =~= before + item_of(p));
                }
                return out;
            }
            proof {
                assert(s.subrange(0, (i - start) as int) =~= p);
                assert(s.subrange((i - start + 1) as int, s.len() as int) =~= cs@.subrange(
                    i + 1,
                    n as int,
                ));
                assert(out.deep_view() =~= before + item_of(p));
                assert(out.deep_view() + list_items(cs@.subrange(i + 1, n as int)) =~= before + (
                item_of(p) + list_items(cs@.subrange(i + 1, n as int))));
            }
            start = i + 1;
        }
        i += 1;
    }
    out
}

/// The trimmed piece as a one-element list, or nothing when it is empty.
pub open spec fn item_of(piece: Seq<char>) -> Seq<Seq<char>> {
    if trimmed(piece).len() > 0 {
        seq![trimmed(piece)]
    } else {
        Seq::empty()
    }
}

/// The trimmed, non-empty pieces between commas, in their order.
pub open spec fn list_items(s: Seq<char>) -> Seq<Seq<char>>
    decreases s.len(),
{
    let i = first_index_of(s, ',');
    if i >= s.len() {
        item_of(s)
    } else {
        item_of(s.subrange(0, i as int)) + list_items(s.subrange((i + 1) as int, s.len() as int))
    }
}

/// Whether every character is an ASCII hexadecimal digit.
pub fn all_hex_digits(s: &str) -> (b: bool)
    ensures
        b == (forall|i: int| 0 <= i < s@.len() ==> is_hex_digit(#[trigger] s@[i])),
{
    let cs = chars_of(s);
    let mut i: usize = 0;
    while i < cs.len()
        invariant
            cs@ == s@,
            0 <= i <= cs.len(),
            forall|k: int| 0 <= k < i ==> is_hex_digit(#[trigger] cs@[k]),
        decreases cs.len() - i,
    {
        let c = cs[i];
        if !(('0' <= c && c <= '9') || ('a' <= c && c <= 'f') || ('A' <= c && c <= 'F')) {
            assert(!is_hex_digit(cs@[i as int]));
            return false;
        }
        i += 1;
    }
    true
}

/// `u64::from_str`.
pub fn parse_u64(s: &str) -> (r: Option<u64>)
    ensures
        r == parse_u64_spec(s@),
{
    let cs = chars_of(s);
    let n = cs.len();
    if n == 0 {
        return None;
    }
    let start: usize = if n > 1 && cs[0] == '+' {
        1
    } else {
        0
    };
    let ghost d = unsigned_digits(cs@);
    assert(d =~= cs@.subrange(start as int, n as int));
    let mut acc: u64 = 0;
    let mut i = start;
    while i < n
        invariant
            n == cs.len(),
            cs@ == s@,
            n > 0,
            d == cs@.subrange(start as int, n as int),
            d == unsigned_digits(s@),
            start <= i <= n,
            forall|k: int| 0 <= k < i - start ==> is_digit(#[trigger] d[k]),
            acc == decimal_value(d.subrange(0, i - start)),
        decreases n - i,
    {
        let c = cs[i];
        if !('0' <= c && c <= '9') {
            assert(!is_digit(d[i - start]));
            return None;
        }
        let dv: u64 = (c as u32 - '0' as u32) as u64;
        proof {
            assert(d.subrange(0, i + 1 - start).drop_last() =~= d.subrange(0, i - start));
            assert(d.subrange(0, i + 1 - start).last() == c);
            assert(decimal_value(d.subrange(0, i + 1 - start)) == acc * 10 + dv);
        }
        let next = match acc.checked_mul(10) {
            Some(m) => m.checked_add(dv),
            None => None,
        };
        match next {
            Some(v) => {
                acc = v;
            },
            None => {
                proof {
                    lemma_decimal_prefix(d, i + 1 - start);
                }
                return None;
            },
        }
        i += 1;
    }
    assert(d.subrange(0, (n - start) as int) =~= d);
    Some(acc)
}

/// Decimal representation of an unsigned number (`u64::to_string`).
pub fn u64_text(n: u64) -> (out: String)
    ensures
        out@ == decimal_text(n as nat),
    decreases n,
{
    if n < 10 {
        let mut out = String::new();
        push_char(&mut out, ((n as u8) + 48u8) as char);
        assert(out@ =~= seq![digit_char(n as nat)]);
        out
    } else {
        let mut out = u64_text(n / 10);
        push_char(&mut out, (((n % 10) as u8) + 48u8) as char);
        out
    }
}

/// Decimal representation of a signed number (`i64::to_string`).
pub fn i64_text(n: i64) -> (out: String)
    ensures
        out@ == signed_decimal_text(n as int),
{
    if n < 0 {
        let magnitude: u64 = (-(n as i128)) as u64;
        let digits = u64_text(magnitude);
        let mut out = String::new();
        push_char(&mut out, '-');
        out.append(digits.as_str());
        assert(out@ =~= seq!['-'] + decimal_text((-(n as int)) as nat));
        out
    } else {
        u64_text(n as u64)
    }
}

} // verus!
