//! Syntax colors for pretty-printed JSON lines, search marks, and the selection
//! background.

use vstd::prelude::*;

use crate::app::features::events::min_of;
use crate::app::features::wrapping::substring_chars;
use crate::app::model::state::sat_sub;
use crate::pattern::{pattern_matches, regex_matches};
use crate::text::{
    ascii_lower, char_count, chars_of, first_index_of, has_prefix, is_digit,
    lemma_first_index, lines, lines_of, owned, string_from, text_eq,
    to_ascii_lowercase, to_lowercase, trim, trim_end, trimmed, unicode_lowercase,
};
use crate::ui::style::{
    pieces_view, text_len, text_of, tinted, Look, Piece, PieceView, Tint,
};

verus! {

/// Every character is an ASCII digit.
pub open spec fn digits_only(s: Seq<char>) -> bool {
    forall|i: int| 0 <= i < s.len() ==> is_digit(#[trigger] s[i])
}

/// Digits with at most one point and at least one digit.
pub open spec fn mantissa_ok(m: Seq<char>) -> bool {
    let d = first_index_of(m, '.');
    if d == m.len() {
        m.len() > 0 && digits_only(m)
    } else {
        digits_only(m.subrange(0, d as int)) && digits_only(m.subrange(d as int + 1, m.len() as int))
            && m.len() > 1
    }
}

/// An optional sign and at least one digit.
pub open spec fn exponent_ok(x: Seq<char>) -> bool {
    let digits = if x.len() > 0 && (x[0] == '+' || x[0] == '-') {
        x.drop_first()
    } else {
        x
    };
    digits.len() > 0 && digits_only(digits)
}

/// A decimal number with an optional exponent, lower-cased.
pub open spec fn decimal_number(b: Seq<char>) -> bool {
    let e = first_index_of(b, 'e');
    if e == b.len() {
        mantissa_ok(b)
    } else {
        mantissa_ok(b.subrange(0, e as int)) && exponent_ok(b.subrange(e as int + 1, b.len() as int))
    }
}

/// Text that Rust's floating point parser accepts: by its documented grammar, an
/// optional sign, then `inf`, `infinity`, `nan` or a decimal number with an
/// optional exponent, letters in any case.
pub open spec fn float_literal(s: Seq<char>) -> bool {
    let t = ascii_lower(s);
    let b = if t.len() > 0 && (t[0] == '+' || t[0] == '-') {
        t.drop_first()
    } else {
        t
    };
    b == "inf"@ || b == "infinity"@ || b == "nan"@ || decimal_number(b)
}

/// Whether `cs[lo..hi]` holds only digits.
fn digits_between(cs: &Vec<char>, lo: usize, hi: usize) -> (b: bool)
    requires
        lo <= hi <= cs.len(),
    ensures
        b == digits_only(cs@.subrange(lo as int, hi as int)),
{
    let mut i = lo;
    while i < hi
        invariant
            lo <= i <= hi <= cs.len(),
            forall|k: int| lo <= k < i ==> is_digit(cs@[k]),
        decreases hi - i,
    {
        if !('0' <= cs[i] && cs[i] <= '9') {
            assert(!is_digit(cs@.subrange(lo as int, hi as int)[i - lo]));
            return false;
        }
        i += 1;
    }
    assert forall|k: int| 0 <= k < hi - lo implies is_digit(
        #[trigger] cs@.subrange(lo as int, hi as int)[k],
    ) by {
        assert(cs@.subrange(lo as int, hi as int)[k] == cs@[lo + k]);
    }
    true
}

/// Position of the first `c` in `cs[lo..hi]`, relative to `lo`; `hi - lo` when
/// there is none.
fn index_between(cs: &Vec<char>, lo: usize, hi: usize, c: char) -> (r: usize)
    requires
        lo <= hi <= cs.len(),
    ensures
        r == first_index_of(cs@.subrange(lo as int, hi as int), c),
        r <= hi - lo,
{
    let ghost s = cs@.subrange(lo as int, hi as int);
    let mut i = lo;
    while i < hi
        invariant
            lo <= i <= hi <= cs.len(),
            s == cs@.subrange(lo as int, hi as int),
            forall|k: int| 0 <= k < i - lo ==> s[k] != c,
        decreases hi - i,
    {
        if cs[i] == c {
            proof {
                lemma_first_index(s, c, i - lo);
            }
            return i - lo;
        }
        i += 1;
    }
    proof {
        lemma_first_index(s, c, hi - lo);
    }
    hi - lo
}

/// Whether `cs[lo..hi]` is a mantissa.
fn mantissa_between(cs: &Vec<char>, lo: usize, hi: usize) -> (b: bool)
    requires
        lo <= hi <= cs.len(),
    ensures
        b == mantissa_ok(cs@.subrange(lo as int, hi as int)),
{
    let ghost m = cs@.subrange(lo as int, hi as int);
    let d = index_between(cs, lo, hi, '.');
    if d == hi - lo {
        hi > lo && digits_between(cs, lo, hi)
    } else {
        proof {
            assert(m.subrange(0, d as int) =~= cs@.subrange(lo as int, lo + d));
            assert(m.subrange(d + 1, m.len() as int) =~= cs@.subrange(lo + d + 1, hi as int));
        }
        digits_between(cs, lo, lo + d) && digits_between(cs, lo + d + 1, hi) && hi - lo > 1
    }
}

/// Whether `cs[lo..hi]` is an exponent.
fn exponent_between(cs: &Vec<char>, lo: usize, hi: usize) -> (b: bool)
    requires
        lo <= hi <= cs.len(),
    ensures
        b == exponent_ok(cs@.subrange(lo as int, hi as int)),
{
    let ghost x = cs@.subrange(lo as int, hi as int);
    let start = if lo < hi && (cs[lo] == '+' || cs[lo] == '-') {
        lo + 1
    } else {
        lo
    };
    proof {
        if start == lo + 1 {
            assert(x.drop_first() =~= cs@.subrange(start as int, hi as int));
        }
    }
    hi > start && digits_between(cs, start, hi)
}

/// Whether Rust's floating point parser accepts the text.
pub fn is_float_literal(s: &str) -> (b: bool)
    ensures
        b == float_literal(s@),
{
    let lower = to_ascii_lowercase(s);
    let cs = chars_of(lower.as_str());
    let ghost t = ascii_lower(s@);
    let n = cs.len();
    let start: usize = if n > 0 && (cs[0] == '+' || cs[0] == '-') {
        1
    } else {
        0
    };
    let ghost body = cs@.subrange(start as int, n as int);
    proof {
        if start == 1 {
            assert(t.drop_first() =~= body);
        } else {
            assert(t =~= body);
        }
    }
    let rest = string_from(&cs, start, n);
    if text_eq(rest.as_str(), "inf") || text_eq(rest.as_str(), "infinity") || text_eq(
        rest.as_str(),
        "nan",
    ) {
        return true;
    }
    let e = index_between(&cs, start, n, 'e');
    if e == n - start {
        mantissa_between(&cs, start, n)
    } else {
        proof {
            assert(body.subrange(0, e as int) =~= cs@.subrange(start as int, start + e));
            assert(body.subrange(e + 1, body.len() as int) =~= cs@.subrange(
                start + e + 1,
                n as int,
            ));
        }
        mantissa_between(&cs, start, start + e) && exponent_between(&cs, start + e + 1, n)
    }
}

/// Char position of the colon that ends a leading `"key"` followed by `: `.
pub open spec fn key_colon(t: Seq<char>) -> Option<nat> {
    if t.len() == 0 || t[0] != '"' {
        None
    } else {
        let q = first_index_of(t.drop_first(), '"');
        if q == t.len() - 1 {
            None
        } else if has_prefix(t.subrange(q as int + 2, t.len() as int), ": "@) {
            Some(q + 2)
        } else {
            None
        }
    }
}

/// The char position of the key's colon, from a scan of the characters.
fn key_colon_in(cs: &Vec<char>) -> (r: Option<usize>)
    ensures
        match r {
            Some(c) => key_colon(cs@) == Some(c as nat),
            None => key_colon(cs@) is None,
        },
        r matches Some(c) ==> c + 2 <= cs.len(),
{
    let n = cs.len();
    if n == 0 || cs[0] != '"' {
        return None;
    }
    let q = index_between(cs, 1, n, '"');
    proof {
        assert(cs@.subrange(1, n as int) =~= cs@.drop_first());
    }
    if q == n - 1 {
        return None;
    }
    proof {
        reveal_strlit(": ");
        assert(": "@ =~= seq![':', ' ']);
    }
    let ghost after = cs@.subrange(q + 2, n as int);
    if n - q >= 4 && cs[q + 2] == ':' && cs[q + 3] == ' ' {
        proof {
            assert(after.subrange(0, 2) =~= seq![':', ' ']);
        }
        Some(q + 2)
    } else {
        proof {
            if n - q >= 4 {
                assert(after.subrange(0, 2)[0] == cs@[q + 2]);
                assert(after.subrange(0, 2)[1] == cs@[q + 3]);
                assert(after.subrange(0, 2) != seq![':', ' ']) by {
                    if cs@[q + 2] != ':' {
                        assert(after.subrange(0, 2)[0] != seq![':', ' '][0]);
                    } else {
                        assert(after.subrange(0, 2)[1] != seq![':', ' '][1]);
                    }
                }
            }
        }
        None
    }
}

/// Finds the position of `": ` that separates a JSON key from its value.
///
/// Returns the byte offset of the colon in the trimmed string.
pub fn find_key_colon(trimmed: &str) -> (r: Option<usize>)
    ensures
        r == match key_colon(trimmed@) {
            Some(c) => Some(
                vstd::utf8::encode_utf8(trimmed@.subrange(0, c as int)).len() as usize,
            ),
            None => None,
        },
{
    let cs = chars_of(trimmed);
    match key_colon_in(&cs) {
        Some(c) => {
            let head = string_from(&cs, 0, c);
            let hs = head.as_str();
            let bytes = hs.len();
            proof {
                assert(hs@ == head@);
                assert(head@ == trimmed@.subrange(0, c as int));
                assert(bytes == vstd::utf8::encode_utf8(hs@).len() as usize);
            }
            Some(bytes)
        },
        None => None,
    }
}

/// The text without its trailing commas.
pub open spec fn strip_commas(s: Seq<char>) -> Seq<char>
    decreases s.len(),
{
    if s.len() > 0 && s.last() == ',' {
        strip_commas(s.drop_last())
    } else {
        s
    }
}

/// A lone bracket, possibly with a comma, or an empty object or array.
pub open spec fn is_structural(t: Seq<char>) -> bool {
    ||| t == "{"@
    ||| t == "}"@
    ||| t == "["@
    ||| t == "]"@
    ||| t == "},"@
    ||| t == "],"@
    ||| t == "{}"@
    ||| t == "[]"@
}

/// A piece of one color.
pub open spec fn colored(text: Seq<char>, t: Tint) -> PieceView {
    PieceView { text, look: tinted(t) }
}

/// Colors of a JSON value: strings green (peach when shortened with an ellipsis),
/// numbers peach, booleans yellow, null and punctuation muted; trailing commas
/// become one muted comma.
pub open spec fn value_pieces(value: Seq<char>) -> Seq<PieceView> {
    let v = strip_commas(value);
    let tail = colored(
        if value.len() > v.len() {
            ","@
        } else {
            Seq::empty()
        },
        Tint::Muted,
    );
    if v.len() >= 2 && v[0] == '"' && v.last() == '"' {
        let inner = v.subrange(1, v.len() - 1);
        let color = if inner.contains('\u{2026}') {
            Tint::Peach
        } else {
            Tint::Green
        };
        seq![colored(v, color), tail]
    } else if v == "null"@ {
        seq![colored(v, Tint::Muted), tail]
    } else if v == "true"@ || v == "false"@ {
        seq![colored(v, Tint::Yellow), tail]
    } else if float_literal(v) {
        seq![colored(v, Tint::Peach), tail]
    } else {
        seq![colored(value, Tint::Muted)]
    }
}

/// Colors of a pretty-printed JSON line: its indentation plain, brackets muted,
/// a key blue with a muted colon, and its value.
pub open spec fn line_pieces(line: Seq<char>) -> Seq<PieceView> {
    let t = trimmed(line);
    if t.len() == 0 {
        seq![colored(line, Tint::Plain)]
    } else {
        let lead = colored(line.subrange(0, line.len() - t.len()), Tint::Plain);
        if is_structural(t) {
            seq![lead, colored(t, Tint::Muted)]
        } else {
            match key_colon(t) {
                Some(c) => seq![
                    lead,
                    colored(t.subrange(0, c as int), Tint::Blue),
                    colored(": "@, Tint::Muted),
                ] + value_pieces(t.subrange(c as int + 2, t.len() as int)),
                None => seq![lead] + value_pieces(t),
            }
        }
    }
}

/// A line whose indentation counts the same in characters and in bytes: ASCII, or
/// without trailing white space.
pub open spec fn clean_line(line: Seq<char>) -> bool {
    vstd::utf8::is_ascii_chars(line) || trim_end(line) == line
}

/// Trailing commas found by a scan are what `strip_commas` drops.
proof fn lemma_strip_commas(s: Seq<char>, j: int)
    requires
        0 <= j <= s.len(),
        forall|k: int| j <= k < s.len() ==> s[k] == ',',
        j == 0 || s[j - 1] != ',',
    ensures
        strip_commas(s) == s.subrange(0, j),
    decreases s.len(),
{
    if j < s.len() {
        lemma_strip_commas(s.drop_last(), j);
        assert(s.drop_last().subrange(0, j) =~= s.subrange(0, j));
    } else {
        assert(s.subrange(0, s.len() as int) =~= s);
    }
}

/// Whether the characters contain `c`.
fn has_char(cs: &Vec<char>, lo: usize, hi: usize, c: char) -> (b: bool)
    requires
        lo <= hi <= cs.len(),
    ensures
        b == cs@.subrange(lo as int, hi as int).contains(c),
{
    let i = index_between(cs, lo, hi, c);
    proof {
        let s = cs@.subrange(lo as int, hi as int);
        if i < hi - lo {
            assert(s[i as int] == c) by {
                lemma_first_index_found(s, c);
            }
        } else {
            lemma_first_index_absent(s, c);
        }
    }
    i < hi - lo
}

/// A position below the length holds the character.
proof fn lemma_first_index_found(s: Seq<char>, c: char)
    requires
        first_index_of(s, c) < s.len(),
    ensures
        s[first_index_of(s, c) as int] == c,
    decreases s.len(),
{
    if s.len() > 0 && s[0] != c {
        lemma_first_index_found(s.drop_first(), c);
    }
}

/// The length is the position only when the character is absent.
proof fn lemma_first_index_absent(s: Seq<char>, c: char)
    requires
        first_index_of(s, c) == s.len(),
    ensures
        !s.contains(c),
    decreases s.len(),
{
    if s.len() > 0 {
        lemma_first_index_absent(s.drop_first(), c);
        assert forall|i: int| 0 <= i < s.len() implies s[i] != c by {
            if i > 0 {
                assert(s[i] == s.drop_first()[i - 1]);
            }
        }
    }
}

/// Colorizes a JSON value portion (after `"key": `).
pub fn colorize_json_value(value: &str) -> (r: Vec<Piece>)
    ensures
        pieces_view(r@) == value_pieces(value@),
{
    let cs = chars_of(value);
    let n = cs.len();
    let mut j = n;
    while j > 0 && cs[j - 1] == ','
        invariant
            j <= n == cs.len(),
            forall|k: int| j <= k < n ==> cs@[k] == ',',
        decreases j,
    {
        j -= 1;
    }
    proof {
        lemma_strip_commas(cs@, j as int);
    }
    let v = string_from(&cs, 0, j);
    let comma = if n > j {
        owned(",")
    } else {
        String::new()
    };
    let tail = Piece::new(comma, Look::tint(Tint::Muted));
    let r = if j >= 2 && cs[0] == '"' && cs[j - 1] == '"' {
        let color = if has_char(&cs, 1, j - 1, '\u{2026}') {
            Tint::Peach
        } else {
            Tint::Green
        };
        proof {
            assert(cs@.subrange(0, j as int).subrange(1, j - 1) =~= cs@.subrange(1, j - 1));
        }
        vec![Piece::new(v, Look::tint(color)), tail]
    } else if text_eq(v.as_str(), "null") {
        vec![Piece::new(v, Look::tint(Tint::Muted)), tail]
    } else if text_eq(v.as_str(), "true") || text_eq(v.as_str(), "false") {
        vec![Piece::new(v, Look::tint(Tint::Yellow)), tail]
    } else if is_float_literal(v.as_str()) {
        vec![Piece::new(v, Look::tint(Tint::Peach)), tail]
    } else {
        vec![Piece::of(value, Look::tint(Tint::Muted))]
    };
    proof {
        assert(pieces_view(r@) =~= value_pieces(value@));
    }
    r
}

/// Whether a trimmed line is a lone bracket or an empty object or array.
fn structural_line(t: &str) -> (b: bool)
    ensures
        b == is_structural(t@),
{
    text_eq(t, "{") || text_eq(t, "}") || text_eq(t, "[") || text_eq(t, "]") || text_eq(t, "},")
        || text_eq(t, "],") || text_eq(t, "{}") || text_eq(t, "[]")
}

/// Colorizes a single JSON line into styled pieces.
pub fn colorize_json_line(line: &str) -> (r: Vec<Piece>)
    requires
        clean_line(line@),
    ensures
        pieces_view(r@) == line_pieces(line@),
{
    let t = trim(line);
    let cs = chars_of(line);
    let tc = chars_of(t.as_str());
    if tc.len() == 0 {
        let r = vec![Piece::of(line, Look::tint(Tint::Plain))];
        proof {
            assert(pieces_view(r@) =~= line_pieces(line@));
        }
        return r;
    }
    proof {
        lemma_trimmed_len(line@);
    }
    let lead = Piece::new(string_from(&cs, 0, cs.len() - tc.len()), Look::tint(Tint::Plain));
    if structural_line(t.as_str()) {
        let r = vec![lead, Piece::new(t, Look::tint(Tint::Muted))];
        proof {
            assert(pieces_view(r@) =~= line_pieces(line@));
        }
        return r;
    }
    match key_colon_in(&tc) {
        Some(c) => {
            let mut r = vec![
                lead,
                Piece::new(string_from(&tc, 0, c), Look::tint(Tint::Blue)),
                Piece::of(": ", Look::tint(Tint::Muted)),
            ];
            let value = string_from(&tc, c + 2, tc.len());
            let mut rest = colorize_json_value(value.as_str());
            let ghost head = r@;
            r.append(&mut rest);
            proof {
                assert(pieces_view(r@) =~= pieces_view(head) + value_pieces(value@));
                assert(pieces_view(r@) =~= line_pieces(line@));
            }
            r
        },
        None => {
            let mut r = vec![lead];
            let mut rest = colorize_json_value(t.as_str());
            let ghost head = r@;
            r.append(&mut rest);
            proof {
                assert(pieces_view(r@) =~= pieces_view(head) + value_pieces(t@));
                assert(pieces_view(r@) =~= line_pieces(line@));
            }
            r
        },
    }
}

/// Trimming never lengthens a text.
pub proof fn lemma_trimmed_len(s: Seq<char>)
    ensures
        trimmed(s).len() <= s.len(),
{
    lemma_trim_start_len(s);
    lemma_trim_end_len(crate::text::trim_start(s));
}

/// Trimming the start never lengthens a text.
proof fn lemma_trim_start_len(s: Seq<char>)
    ensures
        crate::text::trim_start(s).len() <= s.len(),
    decreases s.len(),
{
    if s.len() > 0 {
        lemma_trim_start_len(s.drop_first());
    }
}

/// Trimming the end never lengthens a text.
proof fn lemma_trim_end_len(s: Seq<char>)
    ensures
        trim_end(s).len() <= s.len(),
    decreases s.len(),
{
    if s.len() > 0 {
        lemma_trim_end_len(s.drop_last());
    }
}

/// Styled lines as abstract values.
pub open spec fn lines_view(ls: Seq<Vec<Piece>>) -> Seq<Seq<PieceView>> {
    ls.map_values(|l: Vec<Piece>| pieces_view(l@))
}

/// Colors of every line of a text.
pub open spec fn text_pieces(content: Seq<char>) -> Seq<Seq<PieceView>> {
    lines_of(content).map_values(|l: Seq<char>| line_pieces(l))
}

/// Every line of a text is clean.
pub open spec fn clean_text(content: Seq<char>) -> bool {
    forall|i: int| 0 <= i < lines_of(content).len() ==> clean_line(#[trigger] lines_of(content)[i])
}

/// The mark in front of a line that matches the search.
pub open spec fn search_mark() -> PieceView {
    PieceView {
        text: "\u{203a} "@,
        look: Look { tint: Tint::Accent, bold: true, dim: false, italic: false, underlined: false, selected: false },
    }
}

/// A line marked when the lower-cased search pattern matches a part of its text,
/// lower-cased.
pub open spec fn marked(ps: Seq<PieceView>, query_lower: Seq<char>) -> Seq<PieceView> {
    if pattern_matches(query_lower, unicode_lowercase(text_of(ps))) {
        seq![search_mark()] + ps
    } else {
        ps
    }
}

/// Colors of a text with the lines matching a search marked; a blank query marks
/// nothing.
pub open spec fn searched_pieces(content: Seq<char>, query: Seq<char>) -> Seq<Seq<PieceView>> {
    let colored_lines = text_pieces(content);
    if trimmed(query).len() == 0 {
        colored_lines
    } else {
        colored_lines.map_values(|ps: Seq<PieceView>| marked(ps, unicode_lowercase(query)))
    }
}

/// Colorizes a JSON response with syntax highlighting, line by line.
pub fn colorize_json_text(content: &str) -> (r: Vec<Vec<Piece>>)
    requires
        clean_text(content@),
    ensures
        lines_view(r@) == text_pieces(content@),
{
    let ls = lines(content);
    let ghost lv = lines_of(content@);
    let mut out: Vec<Vec<Piece>> = Vec::new();
    let mut i: usize = 0;
    while i < ls.len()
        invariant
            ls.deep_view() == lv,
            lv == lines_of(content@),
            clean_text(content@),
            0 <= i <= ls.len(),
            lines_view(out@) =~= lv.subrange(0, i as int).map_values(|l: Seq<char>| line_pieces(l)),
        decreases ls.len() - i,
    {
        assert(ls[i as int]@ == lv[i as int]);
        let piece_line = colorize_json_line(ls[i].as_str());
        let ghost old_out = out@;
        let ghost pv = pieces_view(piece_line@);
        out.push(piece_line);
        proof {
            assert(lines_view(out@) =~= lines_view(old_out).push(pv));
            assert(lv.subrange(0, i + 1).map_values(|l: Seq<char>| line_pieces(l)) =~= lv.subrange(
                0,
                i as int,
            ).map_values(|l: Seq<char>| line_pieces(l)).push(line_pieces(lv[i as int])));
        }
        i += 1;
    }
    assert(lv.subrange(0, ls.len() as int) =~= lv);
    out
}

/// The text of a styled line.
fn line_text(line: &Vec<Piece>) -> (out: String)
    ensures
        out@ == text_of(pieces_view(line@)),
{
    let mut out = String::new();
    let mut i: usize = 0;
    while i < line.len()
        invariant
            0 <= i <= line.len(),
            out@ == text_of(pieces_view(line@.subrange(0, i as int))),
        decreases line.len() - i,
    {
        proof {
            let pv = pieces_view(line@.subrange(0, i + 1));
            assert(pv.drop_last() =~= pieces_view(line@.subrange(0, i as int)));
        }
        out.append(line[i].text.as_str());
        i += 1;
    }
    assert(line@.subrange(0, line.len() as int) =~= line@);
    out
}

/// Prefixes a line with a search marker when its text matches the query.
pub fn mark_line_if_matching(line: Vec<Piece>, query_lower: &str) -> (r: Vec<Piece>)
    ensures
        pieces_view(r@) == marked(pieces_view(line@), query_lower@),
{
    let raw = line_text(&line);
    let raw_lower = to_lowercase(raw.as_str());
    if !regex_matches(query_lower, raw_lower.as_str()) {
        return line;
    }
    let mut spans = vec![
        Piece::of(
            "\u{203a} ",
            Look { tint: Tint::Accent, bold: true, dim: false, italic: false, underlined: false, selected: false },
        ),
    ];
    let ghost head = spans@;
    let mut rest = line;
    let ghost tail = rest@;
    spans.append(&mut rest);
    proof {
        assert(pieces_view(spans@) =~= pieces_view(head) + pieces_view(tail));
    }
    spans
}

/// Marks the lines whose text the search pattern matches, ignoring case.
pub fn mark_matching_lines(text: Vec<Vec<Piece>>, query: &str) -> (r: Vec<Vec<Piece>>)
    ensures
        lines_view(r@) == lines_view(text@).map_values(
            |ps: Seq<PieceView>| marked(ps, unicode_lowercase(query@)),
        ),
{
    let query_lower = to_lowercase(query);
    let ghost cv = lines_view(text@);
    let mut out: Vec<Vec<Piece>> = Vec::new();
    let mut rest = text;
    let mut i: usize = 0;
    let n = rest.len();
    while i < n
        invariant
            n == cv.len(),
            query_lower@ == unicode_lowercase(query@),
            0 <= i <= n,
            rest.len() == n - i,
            forall|k: int| 0 <= k < n - i ==> pieces_view(#[trigger] rest@[k]@) == cv[i + k],
            lines_view(out@) =~= cv.subrange(0, i as int).map_values(
                |ps: Seq<PieceView>| marked(ps, query_lower@),
            ),
        decreases n - i,
    {
        let line = rest.remove(0);
        let m = mark_line_if_matching(line, query_lower.as_str());
        let ghost old_out = out@;
        let ghost pv = pieces_view(m@);
        out.push(m);
        proof {
            assert(lines_view(out@) =~= lines_view(old_out).push(pv));
            assert(cv.subrange(0, i + 1).map_values(|ps: Seq<PieceView>| marked(ps, query_lower@))
                =~= cv.subrange(0, i as int).map_values(
                |ps: Seq<PieceView>| marked(ps, query_lower@),
            ).push(marked(cv[i as int], query_lower@)));
        }
        i += 1;
    }
    assert(cv.subrange(0, n as int) =~= cv);
    out
}

/// Colorizes a response and marks the lines that match a search query.
pub fn colorize_and_highlight_json_text(content: &str, query: &str) -> (r: Vec<Vec<Piece>>)
    requires
        clean_text(content@),
    ensures
        lines_view(r@) == searched_pieces(content@, query@),
{
    let colored_lines = colorize_json_text(content);
    if char_count(trim(query).as_str()) == 0 {
        return colored_lines;
    }
    mark_matching_lines(colored_lines, query)
}

/// A look on the selection background.
pub open spec fn on_selection(l: Look) -> Look {
    Look { selected: true, ..l }
}

/// A piece starting at column `start`, split where the selection `s..e` begins and
/// ends, the selected part on the selection background.
pub open spec fn split_piece(p: PieceView, start: nat, s: nat, e: nat) -> Seq<PieceView> {
    let len = p.text.len();
    let end = start + len;
    if len == 0 || e <= start || s >= end {
        seq![p]
    } else {
        let ls = min_of(sat_sub(s as int, start as int), len as int);
        let le = min_of(sat_sub(e as int, start as int), len as int);
        (if ls > 0 {
            seq![PieceView { text: p.text.subrange(0, ls), look: p.look }]
        } else {
            Seq::empty()
        }) + (if le > ls {
            seq![PieceView { text: p.text.subrange(ls, le), look: on_selection(p.look) }]
        } else {
            Seq::empty()
        }) + (if le < len {
            seq![PieceView { text: p.text.subrange(le, len as int), look: p.look }]
        } else {
            Seq::empty()
        })
    }
}

/// A styled line with columns `s..e` on the selection background.
pub open spec fn highlighted(ps: Seq<PieceView>, s: nat, e: nat) -> Seq<PieceView>
    decreases ps.len(),
{
    if ps.len() == 0 {
        Seq::empty()
    } else {
        highlighted(ps.drop_last(), s, e) + split_piece(ps.last(), text_len(ps.drop_last()), s, e)
    }
}

/// A prefix of pieces has no more characters than all of them.
proof fn lemma_text_len_prefix(ps: Seq<PieceView>, i: int)
    requires
        0 <= i <= ps.len(),
    ensures
        text_len(ps.subrange(0, i)) <= text_len(ps),
    decreases ps.len() - i,
{
    if i < ps.len() {
        lemma_text_len_prefix(ps, i + 1);
        assert(ps.subrange(0, i + 1).drop_last() =~= ps.subrange(0, i));
    } else {
        assert(ps.subrange(0, i) =~= ps);
    }
}

/// Applies the selection background to columns `start_col..end_col` of a line.
pub fn highlight_line_range(line: Vec<Piece>, start_col: usize, end_col: usize) -> (r: Vec<Piece>)
    requires
        text_len(pieces_view(line@)) <= usize::MAX,
    ensures
        pieces_view(r@) == highlighted(pieces_view(line@), start_col as nat, end_col as nat),
{
    let ghost pv = pieces_view(line@);
    let mut out_spans: Vec<Piece> = Vec::new();
    let mut cursor: usize = 0;
    let mut rest = line;
    let n = rest.len();
    let mut i: usize = 0;
    while i < n
        invariant
            n == pv.len(),
            text_len(pv) <= usize::MAX,
            0 <= i <= n,
            rest.len() == n - i,
            forall|k: int| 0 <= k < n - i ==> (#[trigger] rest@[k])@ == pv[i + k],
            cursor == text_len(pv.subrange(0, i as int)),
            pieces_view(out_spans@) =~= highlighted(
                pv.subrange(0, i as int),
                start_col as nat,
                end_col as nat,
            ),
        decreases n - i,
    {
        let span = rest.remove(0);
        let ghost sv = span@;
        proof {
            let pre = pv.subrange(0, i + 1);
            assert(pre.drop_last() =~= pv.subrange(0, i as int));
            assert(pre.last() == sv);
            lemma_text_len_prefix(pv, i + 1);
        }
        let span_len = char_count(span.text.as_str());
        let span_start = cursor;
        let span_end = cursor + span_len;
        let ghost before = pieces_view(out_spans@);
        if span_len == 0 || end_col <= span_start || start_col >= span_end {
            out_spans.push(span);
            proof {
                assert(pieces_view(out_spans@) =~= before + seq![sv]);
            }
        } else {
            let a = start_col.saturating_sub(span_start);
            let local_start = if a < span_len {
                a
            } else {
                span_len
            };
            let b = end_col.saturating_sub(span_start);
            let local_end = if b < span_len {
                b
            } else {
                span_len
            };
            let mut parts: Vec<Piece> = Vec::new();
            if local_start > 0 {
                parts.push(Piece::new(substring_chars(span.text.as_str(), 0, local_start), span.look));
            }
            if local_end > local_start {
                parts.push(
                    Piece::new(
                        substring_chars(span.text.as_str(), local_start, local_end),
                        Look { selected: true, ..span.look },
                    ),
                );
            }
            if local_end < span_len {
                parts.push(Piece::new(substring_chars(span.text.as_str(), local_end, span_len), span.look));
            }
            proof {
                assert(pieces_view(parts@) =~= split_piece(sv, span_start as nat, start_col as nat, end_col as nat));
            }
            let ghost pp = pieces_view(parts@);
            out_spans.append(&mut parts);
            proof {
                assert(pieces_view(out_spans@) =~= before + pp);
            }
        }
        cursor = span_end;
        i += 1;
    }
    assert(pv.subrange(0, n as int) =~= pv);
    out_spans
}

/// Lengths add up over joined piece sequences.
pub proof fn lemma_text_len_concat(a: Seq<PieceView>, b: Seq<PieceView>)
    ensures
        text_len(a + b) == text_len(a) + text_len(b),
    decreases b.len(),
{
    if b.len() > 0 {
        lemma_text_len_concat(a, b.drop_last());
        assert((a + b).drop_last() =~= a + b.drop_last());
    } else {
        assert(a + b =~= a);
    }
}

/// Stripping commas never lengthens a text.
proof fn lemma_strip_commas_len(s: Seq<char>)
    ensures
        strip_commas(s).len() <= s.len(),
    decreases s.len(),
{
    if s.len() > 0 && s.last() == ',' {
        lemma_strip_commas_len(s.drop_last());
    }
}

/// Characters of one and of two pieces.
proof fn lemma_text_len_small(a: PieceView, b: PieceView, c: PieceView)
    ensures
        text_len(seq![a]) == a.text.len(),
        text_len(seq![a, b]) == a.text.len() + b.text.len(),
        text_len(seq![a, b, c]) == a.text.len() + b.text.len() + c.text.len(),
{
    let s0 = Seq::<PieceView>::empty();
    let s1 = seq![a];
    let s2 = seq![a, b];
    let s3 = seq![a, b, c];
    assert(s1.drop_last() =~= s0);
    assert(s2.drop_last() =~= s1);
    assert(s3.drop_last() =~= s2);
    assert(text_len(s0) == 0);
    assert(text_len(s1) == text_len(s0) + a.text.len());
    assert(text_len(s2) == text_len(s1) + b.text.len());
    assert(text_len(s3) == text_len(s2) + c.text.len());
}

/// The first position of a character is at most the length.
proof fn lemma_first_index_bound(s: Seq<char>, c: char)
    ensures
        first_index_of(s, c) <= s.len(),
    decreases s.len(),
{
    if s.len() > 0 && s[0] != c {
        lemma_first_index_bound(s.drop_first(), c);
    }
}

/// A key's colon leaves room for the separator.
proof fn lemma_key_colon_bound(t: Seq<char>)
    ensures
        key_colon(t) matches Some(c) ==> c + 2 <= t.len(),
{
    if t.len() > 0 && t[0] == '"' {
        lemma_first_index_bound(t.drop_first(), '"');
        reveal_strlit(": ");
    }
}

/// Colors of a value have no more characters than the value.
proof fn lemma_value_pieces_len(value: Seq<char>)
    ensures
        text_len(value_pieces(value)) <= value.len(),
{
    lemma_strip_commas_len(value);
    let v = strip_commas(value);
    let tail = colored(
        if value.len() > v.len() {
            ","@
        } else {
            Seq::empty()
        },
        Tint::Muted,
    );
    reveal_strlit(",");
    lemma_text_len_small(colored(v, Tint::Muted), tail, tail);
    lemma_text_len_small(colored(v, Tint::Green), tail, tail);
    lemma_text_len_small(colored(v, Tint::Peach), tail, tail);
    lemma_text_len_small(colored(v, Tint::Yellow), tail, tail);
    lemma_text_len_small(colored(value, Tint::Muted), tail, tail);
}

/// Colors of a line have no more characters than the line.
pub proof fn lemma_line_pieces_len(line: Seq<char>)
    ensures
        text_len(line_pieces(line)) <= line.len(),
{
    let t = trimmed(line);
    lemma_trimmed_len(line);
    let lead = colored(line.subrange(0, line.len() - t.len()), Tint::Plain);
    lemma_text_len_small(colored(line, Tint::Plain), lead, lead);
    lemma_text_len_small(lead, colored(t, Tint::Muted), lead);
    if t.len() > 0 && !is_structural(t) {
        match key_colon(t) {
            Some(c) => {
                reveal_strlit(": ");
                lemma_key_colon_bound(t);
                let key = colored(t.subrange(0, c as int), Tint::Blue);
                let sep = colored(": "@, Tint::Muted);
                let head = seq![lead, key, sep];
                lemma_text_len_small(lead, key, sep);
                lemma_value_pieces_len(t.subrange(c as int + 2, t.len() as int));
                lemma_text_len_concat(head, value_pieces(t.subrange(c as int + 2, t.len() as int)));
            },
            None => {
                lemma_value_pieces_len(t);
                lemma_text_len_concat(seq![lead], value_pieces(t));
            },
        }
    }
}

/// A wrapped row with the part inside the selection `start..end` highlighted.
pub open spec fn selected_row(line: Seq<char>, row: int, start: (usize, usize), end: (usize, usize)) -> Seq<PieceView> {
    let base = line_pieces(line);
    if row < start.0 || row > end.0 {
        base
    } else {
        let len = line.len() as int;
        let sc = if row == start.0 {
            min_of(start.1 as int, len)
        } else {
            0
        };
        let ec = if row == end.0 {
            min_of(end.1 as int, len)
        } else {
            len
        };
        if ec <= sc {
            base
        } else {
            highlighted(base, sc as nat, ec as nat)
        }
    }
}

/// Colors of wrapped rows with the selection highlighted.
pub open spec fn selection_pieces(rows: Seq<Seq<char>>, start: (usize, usize), end: (usize, usize)) -> Seq<Seq<PieceView>> {
    Seq::new(rows.len(), |r: int| selected_row(rows[r], r, start, end))
}

/// Colors wrapped rows and highlights the selection from `start` to `end`.
pub fn selection_highlight_text(wrapped_lines: &Vec<String>, start: (usize, usize), end: (usize, usize)) -> (r: Vec<Vec<Piece>>)
    requires
        forall|i: int| 0 <= i < wrapped_lines.len() ==> clean_line(#[trigger] wrapped_lines@[i]@),
    ensures
        lines_view(r@) == selection_pieces(wrapped_lines.deep_view(), start, end),
{
    let ghost rows = wrapped_lines.deep_view();
    let mut lines: Vec<Vec<Piece>> = Vec::new();
    let mut row: usize = 0;
    while row < wrapped_lines.len()
        invariant
            rows == wrapped_lines.deep_view(),
            forall|i: int| 0 <= i < wrapped_lines.len() ==> clean_line(#[trigger] wrapped_lines@[i]@),
            0 <= row <= wrapped_lines.len(),
            lines_view(lines@) =~= Seq::new(row as nat, |r: int| selected_row(rows[r], r, start, end)),
        decreases wrapped_lines.len() - row,
    {
        let line = &wrapped_lines[row];
        assert(line@ == rows[row as int]);
        let base_line = colorize_json_line(line.as_str());
        let ghost bv = pieces_view(base_line@);
        let line_len = char_count(line.as_str());
        let out = if row < start.0 || row > end.0 {
            base_line
        } else {
            let start_col = if row == start.0 {
                if start.1 < line_len {
                    start.1
                } else {
                    line_len
                }
            } else {
                0
            };
            let end_col = if row == end.0 {
                if end.1 < line_len {
                    end.1
                } else {
                    line_len
                }
            } else {
                line_len
            };
            if end_col <= start_col {
                base_line
            } else {
                proof {
                    lemma_line_pieces_len(line@);
                }
                highlight_line_range(base_line, start_col, end_col)
            }
        };
        let ghost ov = pieces_view(out@);
        assert(ov == selected_row(rows[row as int], row as int, start, end));
        let ghost old_lines = lines@;
        lines.push(out);
        proof {
            assert(lines_view(lines@) =~= lines_view(old_lines).push(ov));
        }
        row += 1;
    }
    lines
}

/// Texts add up over joined piece sequences.
pub proof fn lemma_text_of_concat(a: Seq<PieceView>, b: Seq<PieceView>)
    ensures
        text_of(a + b) == text_of(a) + text_of(b),
    decreases b.len(),
{
    if b.len() > 0 {
        lemma_text_of_concat(a, b.drop_last());
        assert((a + b).drop_last() =~= a + b.drop_last());
        assert(text_of(a) + text_of(b) =~= text_of(a) + text_of(b.drop_last()) + b.last().text);
    } else {
        assert(a + b =~= a);
        assert(text_of(a) + text_of(b) =~= text_of(a));
    }
}

/// Splitting a piece at the selection keeps its text.
proof fn lemma_split_piece_text(p: PieceView, start: nat, s: nat, e: nat)
    requires
        s <= e,
    ensures
        text_of(split_piece(p, start, s, e)) == p.text,
{
    let len = p.text.len();
    for_single(seq![p]);
    if !(len == 0 || e <= start || s >= start + len) {
        let ls = min_of(sat_sub(s as int, start as int), len as int);
        let le = min_of(sat_sub(e as int, start as int), len as int);
        let a: Seq<PieceView> = if ls > 0 {
            seq![PieceView { text: p.text.subrange(0, ls), look: p.look }]
        } else {
            Seq::empty()
        };
        let b: Seq<PieceView> = if le > ls {
            seq![PieceView { text: p.text.subrange(ls, le), look: on_selection(p.look) }]
        } else {
            Seq::empty()
        };
        let c: Seq<PieceView> = if le < len {
            seq![PieceView { text: p.text.subrange(le, len as int), look: p.look }]
        } else {
            Seq::empty()
        };
        lemma_text_of_concat(a + b, c);
        lemma_text_of_concat(a, b);
        for_single(a);
        for_single(b);
        for_single(c);
        assert(text_of(a) + text_of(b) + text_of(c) =~= p.text);
    }
}

/// The text of no piece or of one piece.
proof fn for_single(a: Seq<PieceView>)
    requires
        a.len() <= 1,
    ensures
        text_of(a) == if a.len() == 0 {
            Seq::<char>::empty()
        } else {
            a[0].text
        },
{
    let e = Seq::<PieceView>::empty();
    assert(text_of(e) == Seq::<char>::empty());
    if a.len() == 1 {
        assert(a.drop_last() =~= e);
        assert(text_of(a) == text_of(a.drop_last()) + a.last().text);
        assert(Seq::<char>::empty() + a[0].text =~= a[0].text);
    } else {
        assert(a =~= e);
    }
}

/// Highlighting a selection never changes the text shown, only its looks.
pub proof fn lemma_highlight_keeps_text(ps: Seq<PieceView>, s: nat, e: nat)
    requires
        s <= e,
    ensures
        text_of(highlighted(ps, s, e)) == text_of(ps),
    decreases ps.len(),
{
    if ps.len() > 0 {
        lemma_highlight_keeps_text(ps.drop_last(), s, e);
        lemma_split_piece_text(ps.last(), text_len(ps.drop_last()), s, e);
        lemma_text_of_concat(
            highlighted(ps.drop_last(), s, e),
            split_piece(ps.last(), text_len(ps.drop_last()), s, e),
        );
    }
}

/// Whether a line is clean: ASCII, or without trailing white space.
pub fn clean_line_text(line: &str) -> (b: bool)
    ensures
        b == clean_line(line@),
{
    if line.is_ascii() {
        return true;
    }
    let cs = chars_of(line);
    let n = cs.len();
    if n == 0 {
        return true;
    }
    let last = cs[n - 1];
    let ws = crate::text::is_whitespace(last);
    proof {
        assert(line@.last() == last);
        if ws {
            lemma_trim_end_len(line@.drop_last());
            assert(trim_end(line@).len() < line@.len());
        }
    }
    !ws
}

/// Trimming the start leaves a suffix.
proof fn lemma_trim_start_suffix(s: Seq<char>)
    ensures
        crate::text::trim_start(s).len() <= s.len(),
        crate::text::trim_start(s) == s.subrange(
            s.len() - crate::text::trim_start(s).len(),
            s.len() as int,
        ),
        s.len() > 0 && !crate::text::is_ws(s.last()) ==> crate::text::trim_start(s).len() > 0,
    decreases s.len(),
{
    if s.len() > 0 && crate::text::is_ws(s[0]) {
        lemma_trim_start_suffix(s.drop_first());
        let t = crate::text::trim_start(s.drop_first());
        assert(s.drop_first().subrange(s.len() - 1 - t.len(), s.len() - 1) =~= s.subrange(
            s.len() - t.len(),
            s.len() as int,
        ));
        if s.len() > 0 && !crate::text::is_ws(s.last()) {
            assert(s.drop_first().last() == s.last());
        }
    } else {
        assert(s.subrange(0, s.len() as int) =~= s);
    }
}

/// Stripping one trailing comma.
proof fn lemma_strip_one_comma(v: Seq<char>)
    requires
        v.len() > 0,
        v.last() == ',',
        v.len() == 1 || v[v.len() - 2] != ',',
    ensures
        strip_commas(v) == v.drop_last(),
{
    let w = v.drop_last();
    if w.len() > 0 {
        assert(w.last() == v[v.len() - 2]);
    }
    assert(strip_commas(v) == strip_commas(w));
    assert(strip_commas(w) == w);
}

/// The texts of two and three pieces.
proof fn lemma_text_of_small(a: PieceView, b: PieceView, c: PieceView)
    ensures
        text_of(seq![a]) == a.text,
        text_of(seq![a, b]) == a.text + b.text,
        text_of(seq![a, b, c]) == a.text + b.text + c.text,
{
    for_single(seq![a]);
    for_single(seq![b]);
    for_single(seq![c]);
    lemma_text_of_concat(seq![a], seq![b]);
    assert(seq![a] + seq![b] =~= seq![a, b]);
    lemma_text_of_concat(seq![a, b], seq![c]);
    assert(seq![a, b] + seq![c] =~= seq![a, b, c]);
}

/// Colors of a value keep its text when it ends with at most one comma.
proof fn lemma_value_pieces_text(value: Seq<char>)
    requires
        !(value.len() >= 2 && value.last() == ',' && value[value.len() - 2] == ','),
    ensures
        text_of(value_pieces(value)) == value,
{
    let v = strip_commas(value);
    reveal_strlit(",");
    if value.len() > 0 && value.last() == ',' {
        lemma_strip_one_comma(value);
        assert(v + ","@ =~= value);
    } else {
        assert(v == value);
        assert(v + Seq::<char>::empty() =~= value);
    }
    let tail = colored(
        if value.len() > v.len() {
            ","@
        } else {
            Seq::empty()
        },
        Tint::Muted,
    );
    lemma_text_of_small(colored(v, Tint::Muted), tail, tail);
    lemma_text_of_small(colored(v, Tint::Green), tail, tail);
    lemma_text_of_small(colored(v, Tint::Peach), tail, tail);
    lemma_text_of_small(colored(v, Tint::Yellow), tail, tail);
    lemma_text_of_small(colored(value, Tint::Muted), tail, tail);
}

/// Coloring a pretty-printed JSON line only styles it: the pieces spell the line,
/// for lines without trailing white space that do not end in two commas.
pub proof fn lemma_colors_keep_text(line: Seq<char>)
    requires
        trim_end(line) == line,
        !(line.len() >= 2 && line.last() == ',' && line[line.len() - 2] == ','),
    ensures
        text_of(line_pieces(line)) == line,
{
    let s0 = crate::text::trim_start(line);
    lemma_trim_start_suffix(line);
    if line.len() > 0 {
        if crate::text::is_ws(line.last()) {
            lemma_trim_end_len(line.drop_last());
            assert(trim_end(line).len() < line.len());
        }
        assert(!crate::text::is_ws(line.last()));
        assert(s0.last() == line.last());
    }
    let t = trimmed(line);
    assert(t == s0);
    let lead = colored(line.subrange(0, line.len() - t.len()), Tint::Plain);
    assert(lead.text + t =~= line);
    lemma_text_of_small(colored(line, Tint::Plain), lead, lead);
    lemma_text_of_small(lead, colored(t, Tint::Muted), lead);
    if t.len() > 0 && !is_structural(t) {
        match key_colon(t) {
            Some(c) => {
                reveal_strlit(": ");
                lemma_key_colon_bound(t);
                let key = colored(t.subrange(0, c as int), Tint::Blue);
                let sep = colored(": "@, Tint::Muted);
                let value = t.subrange(c as int + 2, t.len() as int);
                if value.len() >= 2 {
                    assert(value.last() == line.last());
                    assert(value[value.len() - 2] == line[line.len() - 2]);
                }
                lemma_value_pieces_text(value);
                lemma_text_of_small(lead, key, sep);
                lemma_text_of_concat(seq![lead, key, sep], value_pieces(value));
                assert(t.subrange(c as int, c as int + 2) =~= ": "@);
                assert(lead.text + key.text + sep.text + value =~= line);
            },
            None => {
                if t.len() >= 2 {
                    assert(t.last() == line.last());
                    assert(t[t.len() - 2] == line[line.len() - 2]);
                }
                lemma_value_pieces_text(t);
                lemma_text_of_concat(seq![lead], value_pieces(t));
            },
        }
    }
}

/// Lines of a text, each one plain piece.
pub open spec fn plain_lines(text: Seq<char>) -> Seq<Seq<PieceView>> {
    lines_of(text).map_values(|l: Seq<char>| seq![colored(l, Tint::Plain)])
}

/// Every row is clean.
pub open spec fn clean_rows(rows: Seq<Seq<char>>) -> bool {
    forall|i: int| 0 <= i < rows.len() ==> clean_line(#[trigger] rows[i])
}

/// What the response pane shows: nothing before a response; the current page's
/// wrapped rows with the selection highlighted while there is one; else the page
/// colored, with search marks while searching in fullscreen. A page with a line that
/// is not clean is shown plain.
pub open spec fn response_body(s: crate::app::model::state::AppView) -> Option<Seq<Seq<PieceView>>> {
    if s.last_response.len() == 0 {
        None
    } else {
        let page = s.page_text();
        match s.selection_range() {
            Some((a, b)) => if clean_rows(s.wrapped_rows()) {
                Some(selection_pieces(s.wrapped_rows(), a, b))
            } else {
                Some(plain_lines(page))
            },
            None => if !clean_text(page) {
                Some(plain_lines(page))
            } else if s.search_visible() && s.response_search_query.len() > 0 {
                Some(searched_pieces(page, s.response_search_query))
            } else {
                Some(text_pieces(page))
            },
        }
    }
}

/// Lines of a text, each one plain piece.
fn plain_text_lines(text: &str) -> (r: Vec<Vec<Piece>>)
    ensures
        lines_view(r@) == plain_lines(text@),
{
    let ls = lines(text);
    let ghost lv = lines_of(text@);
    let mut out: Vec<Vec<Piece>> = Vec::new();
    let mut i: usize = 0;
    while i < ls.len()
        invariant
            ls.deep_view() == lv,
            0 <= i <= ls.len(),
            lines_view(out@) =~= lv.subrange(0, i as int).map_values(
                |l: Seq<char>| seq![colored(l, Tint::Plain)],
            ),
        decreases ls.len() - i,
    {
        assert(ls[i as int]@ == lv[i as int]);
        let row = vec![Piece::of(ls[i].as_str(), Look::tint(Tint::Plain))];
        let ghost old_out = out@;
        let ghost rv = pieces_view(row@);
        assert(rv =~= seq![colored(lv[i as int], Tint::Plain)]);
        out.push(row);
        proof {
            assert(lines_view(out@) =~= lines_view(old_out).push(rv));
            assert(lv.subrange(0, i + 1).map_values(|l: Seq<char>| seq![colored(l, Tint::Plain)])
                =~= lv.subrange(0, i as int).map_values(
                |l: Seq<char>| seq![colored(l, Tint::Plain)],
            ).push(seq![colored(lv[i as int], Tint::Plain)]));
        }
        i += 1;
    }
    assert(lv.subrange(0, ls.len() as int) =~= lv);
    out
}

/// Whether every row is clean.
fn rows_clean(rows: &Vec<String>) -> (b: bool)
    ensures
        b == clean_rows(rows.deep_view()),
{
    let mut i: usize = 0;
    while i < rows.len()
        invariant
            0 <= i <= rows.len(),
            forall|k: int| 0 <= k < i ==> clean_line(#[trigger] rows.deep_view()[k]),
        decreases rows.len() - i,
    {
        assert(rows.deep_view()[i as int] == rows[i as int]@);
        if !clean_line_text(rows[i].as_str()) {
            return false;
        }
        i += 1;
    }
    true
}

/// Whether every line of a text is clean.
fn text_clean(text: &str) -> (b: bool)
    ensures
        b == clean_text(text@),
{
    let ls = lines(text);
    let b = rows_clean(&ls);
    proof {
        assert(ls.deep_view() == lines_of(text@));
    }
    b
}

/// The lines the response pane shows, or nothing before a response.
pub fn response_lines(app: &crate::app::model::state::App) -> (r: Option<Vec<Vec<Piece>>>)
    requires
        app@.wf(),
    ensures
        match r {
            Some(ls) => response_body(app@) == Some(lines_view(ls@)),
            None => response_body(app@) is None,
        },
{
    if char_count(app.last_response.as_str()) == 0 {
        return None;
    }
    let page = app.current_page_text();
    match app.response_selection_range() {
        Some((start, end)) => {
            let rows = app.wrapped_page_lines();
            if rows_clean(&rows) {
                proof {
                    assert forall|i: int| 0 <= i < rows.len() implies clean_line(#[trigger] rows@[i]@) by {
                        assert(rows.deep_view()[i] == rows@[i]@);
                    }
                }
                Some(selection_highlight_text(&rows, start, end))
            } else {
                Some(plain_text_lines(page.as_str()))
            }
        },
        None => {
            if !text_clean(page.as_str()) {
                Some(plain_text_lines(page.as_str()))
            } else if app.is_response_search_visible() && char_count(app.response_search_query.as_str()) > 0 {
                Some(colorize_and_highlight_json_text(page.as_str(), app.response_search_query.as_str()))
            } else {
                Some(colorize_json_text(page.as_str()))
            }
        },
    }
}

/// Trailing commas do not change how a value is colored: a value with a comma
/// after it is colored as the value alone, and when the value is recognized (it
/// colors as the value and a tail) the comma changes only the tail, which becomes
/// one muted comma.
pub proof fn lemma_comma_keeps_color(v: Seq<char>)
    ensures
        value_pieces(v + ","@)[0].look == value_pieces(v)[0].look,
        value_pieces(v).len() == 2 ==> value_pieces(v + ","@)[0] == value_pieces(v)[0]
            && value_pieces(v + ","@)[1] == colored(","@, Tint::Muted),
{
    let w = v + ","@;
    reveal_strlit(",");
    assert(w.len() > 0 && w.last() == ',');
    assert(w.drop_last() =~= v);
    assert(strip_commas(w) == strip_commas(v));
    lemma_strip_commas_len(v);
}

/// `true` and `false` are yellow, whatever trailing commas follow them: the first
/// piece is the boolean itself, in yellow.
pub proof fn lemma_booleans_yellow(v: Seq<char>)
    requires
        strip_commas(v) == "true"@ || strip_commas(v) == "false"@,
    ensures
        value_pieces(v)[0] == colored(strip_commas(v), Tint::Yellow),
{
    reveal_strlit("true");
    reveal_strlit("false");
    reveal_strlit("null");
    let sv = strip_commas(v);
    assert(sv[0] != '"');
    assert(sv != "null"@) by {
        assert(sv.len() != 4 || sv[0] != "null"@[0]);
    }
}

} // verus!
