//! The search patterns of the response pane: a small regular expression
//! language, matched anywhere in a line.
//!
//! A pattern is one or more alternatives parted by `|`; a line matches when one
//! of them does. An alternative is a sequence of atoms, each taken once,
//! optionally (`?`), any number of times (`*`) or at least once (`+`). An atom
//! is a character, `.` (any character), or an escape: `\d` (an ASCII digit),
//! `\w` (an ASCII letter, digit or `_`), `\s` (white space), or a backslash and
//! any other character, which stands for that character. A `^` at the start of
//! an alternative ties it to the start of the line, a `$` at its end to the end
//! of the line. A quantifier with no atom before it, and every other character,
//! stands for itself.

use vstd::prelude::*;

use crate::text::{chars_of, is_ws};

verus! {

/// What one position of a pattern accepts.
#[derive(Debug, Clone, Copy, PartialEq, Eq, Structural)]
pub enum Atom {
    /// Any character
    Any,
    /// This character
    Char(char),
    /// An ASCII digit
    Digit,
    /// An ASCII letter or digit, or `_`
    Word,
    /// White space
    Space,
}

/// How often an atom is taken.
#[derive(Debug, Clone, Copy, PartialEq, Eq, Structural)]
pub enum Rep {
    /// Exactly once
    One,
    /// Once or not at all
    Optional,
    /// Any number of times
    Many,
}

/// An atom and how often it is taken.
#[derive(Debug, Clone, Copy, PartialEq, Eq, Structural)]
pub struct Item {
    pub atom: Atom,
    pub rep: Rep,
}

/// A parsed pattern.
#[derive(Debug, Clone)]
pub struct Pattern {
    /// The match starts at the start of the text
    pub start: bool,
    pub items: Vec<Item>,
    /// The match ends at the end of the text
    pub end: bool,
}

/// A parsed pattern, by value.
pub struct PatternView {
    pub start: bool,
    pub items: Seq<Item>,
    pub end: bool,
}

impl View for Pattern {
    type V = PatternView;

    open spec fn view(&self) -> PatternView {
        PatternView { start: self.start, items: self.items@, end: self.end }
    }
}

/// ASCII letters and digits, and `_`.
pub open spec fn is_word_char(c: char) -> bool {
    ('a' <= c && c <= 'z') || ('A' <= c && c <= 'Z') || ('0' <= c && c <= '9') || c == '_'
}

/// Whether an atom accepts a character.
pub open spec fn accepts(a: Atom, c: char) -> bool {
    match a {
        Atom::Any => true,
        Atom::Char(d) => c == d,
        Atom::Digit => '0' <= c && c <= '9',
        Atom::Word => is_word_char(c),
        Atom::Space => is_ws(c),
    }
}

/// The atom written as a backslash and `c`.
pub open spec fn escaped(c: char) -> Atom {
    if c == 'd' {
        Atom::Digit
    } else if c == 'w' {
        Atom::Word
    } else if c == 's' {
        Atom::Space
    } else {
        Atom::Char(c)
    }
}

/// How many characters the atom at `k` takes: two for an escape, else one.
pub open spec fn atom_len(p: Seq<char>, k: nat) -> nat {
    if p[k as int] == '\\' && k + 1 < p.len() {
        2
    } else {
        1
    }
}

/// The atom written at `k`.
pub open spec fn atom_at(p: Seq<char>, k: nat) -> Atom {
    if p[k as int] == '\\' && k + 1 < p.len() {
        escaped(p[k as int + 1])
    } else if p[k as int] == '.' {
        Atom::Any
    } else {
        Atom::Char(p[k as int])
    }
}

/// The items written from `k` on, and whether a `$` ends the pattern.
pub open spec fn parse_from(p: Seq<char>, k: nat) -> (Seq<Item>, bool)
    decreases p.len() - k,
{
    if k >= p.len() {
        (Seq::empty(), false)
    } else if p[k as int] == '$' && k + 1 == p.len() {
        (Seq::empty(), true)
    } else {
        let a = atom_at(p, k);
        let n = k + atom_len(p, k);
        if n < p.len() && p[n as int] == '*' {
            let r = parse_from(p, n + 1);
            (seq![Item { atom: a, rep: Rep::Many }] + r.0, r.1)
        } else if n < p.len() && p[n as int] == '+' {
            let r = parse_from(p, n + 1);
            (seq![Item { atom: a, rep: Rep::One }, Item { atom: a, rep: Rep::Many }] + r.0, r.1)
        } else if n < p.len() && p[n as int] == '?' {
            let r = parse_from(p, n + 1);
            (seq![Item { atom: a, rep: Rep::Optional }] + r.0, r.1)
        } else {
            let r = parse_from(p, n);
            (seq![Item { atom: a, rep: Rep::One }] + r.0, r.1)
        }
    }
}

/// Where the items of a pattern start: after a leading `^`.
pub open spec fn items_start(p: Seq<char>) -> nat {
    if p.len() > 0 && p[0] == '^' {
        1
    } else {
        0
    }
}

/// The pattern that a text writes.
pub open spec fn parse(p: Seq<char>) -> PatternView {
    let r = parse_from(p, items_start(p));
    PatternView { start: items_start(p) == 1, items: r.0, end: r.1 }
}

/// Whether the items from `i` on match `t` from `j` on (to its end when `end`).
pub open spec fn match_from(items: Seq<Item>, t: Seq<char>, end: bool, i: nat, j: nat) -> bool
    decreases items.len() - i, t.len() - j,
{
    if i >= items.len() {
        !end || j >= t.len()
    } else {
        let it = items[i as int];
        let step = j < t.len() && accepts(it.atom, t[j as int]);
        match it.rep {
            Rep::One => step && match_from(items, t, end, i + 1, j + 1),
            Rep::Optional => (step && match_from(items, t, end, i + 1, j + 1)) || match_from(
                items,
                t,
                end,
                i + 1,
                j,
            ),
            Rep::Many => match_from(items, t, end, i + 1, j) || (step && match_from(
                items,
                t,
                end,
                i,
                j + 1,
            )),
        }
    }
}

/// Whether a pattern matches a part of `t`: at its start when the pattern is tied
/// to the start, else at some position.
pub open spec fn finds(pat: PatternView, t: Seq<char>) -> bool {
    if pat.start {
        match_from(pat.items, t, pat.end, 0, 0)
    } else {
        exists|j: nat| j <= t.len() && #[trigger] match_from(pat.items, t, pat.end, 0, j)
    }
}

/// Where the alternative starting at `k` ends: at the first `|` that no
/// backslash escapes, or at the end of the pattern.
pub open spec fn branch_end(p: Seq<char>, k: nat) -> nat
    decreases p.len() - k,
{
    if k >= p.len() {
        p.len()
    } else if p[k as int] == '\\' && k + 1 < p.len() {
        branch_end(p, k + 2)
    } else if p[k as int] == '|' {
        k
    } else {
        branch_end(p, k + 1)
    }
}

/// An alternative ends at or after its start, and within the pattern.
pub proof fn lemma_branch_end(p: Seq<char>, k: nat)
    requires
        k <= p.len(),
    ensures
        k <= branch_end(p, k) <= p.len(),
    decreases p.len() - k,
{
    if k < p.len() {
        if p[k as int] == '\\' && k + 1 < p.len() {
            lemma_branch_end(p, k + 2);
        } else if p[k as int] != '|' {
            lemma_branch_end(p, k + 1);
        }
    }
}

/// The alternatives written from `k` on, parsed.
pub open spec fn branches_from(p: Seq<char>, k: nat) -> Seq<PatternView>
    decreases p.len() - k,
{
    if k > p.len() {
        Seq::empty()
    } else {
        let e = branch_end(p, k);
        proof {
            lemma_branch_end(p, k);
        }
        let head = parse(p.subrange(k as int, e as int));
        if e < p.len() {
            seq![head] + branches_from(p, e + 1)
        } else {
            seq![head]
        }
    }
}

/// The alternatives of a pattern, parsed.
pub open spec fn alternatives(p: Seq<char>) -> Seq<PatternView> {
    branches_from(p, 0)
}

/// Whether one of the alternatives matches a part of `t`.
pub open spec fn matches_any(alts: Seq<PatternView>, t: Seq<char>) -> bool {
    exists|i: int| 0 <= i < alts.len() && finds(#[trigger] alts[i], t)
}

/// Whether the pattern written `pattern` matches a part of `text`.
pub open spec fn pattern_matches(pattern: Seq<char>, text: Seq<char>) -> bool {
    matches_any(alternatives(pattern), text)
}

/// The parsed values of patterns.
pub open spec fn views(ps: Seq<Pattern>) -> Seq<PatternView> {
    ps.map_values(|x: Pattern| x@)
}

/// Whether an atom accepts a character.
pub fn atom_accepts(a: Atom, c: char) -> (b: bool)
    ensures
        b == accepts(a, c),
{
    match a {
        Atom::Any => true,
        Atom::Char(d) => c == d,
        Atom::Digit => '0' <= c && c <= '9',
        Atom::Word => ('a' <= c && c <= 'z') || ('A' <= c && c <= 'Z') || ('0' <= c && c <= '9')
            || c == '_',
        Atom::Space => crate::text::is_whitespace(c),
    }
}

/// Parses the pattern written in `p`.
pub fn parse_pattern(p: &Vec<char>) -> (r: Pattern)
    ensures
        r@ == parse(p@),
{
    let len = p.len();
    let start = len > 0 && p[0] == '^';
    let k0: usize = if start {
        1
    } else {
        0
    };
    let mut items: Vec<Item> = Vec::new();
    let mut k = k0;
    while k < len && !(p[k] == '$' && k + 1 == len)
        invariant
            len == p.len(),
            k0 <= k <= len,
            k0 == items_start(p@),
            parse_from(p@, k0 as nat).0 == items@ + parse_from(p@, k as nat).0,
            parse_from(p@, k0 as nat).1 == parse_from(p@, k as nat).1,
        decreases len - k,
    {
        let ghost before = items@;
        let escape = p[k] == '\\' && k + 1 < len;
        let a = if escape {
            let c = p[k + 1];
            if c == 'd' {
                Atom::Digit
            } else if c == 'w' {
                Atom::Word
            } else if c == 's' {
                Atom::Space
            } else {
                Atom::Char(c)
            }
        } else if p[k] == '.' {
            Atom::Any
        } else {
            Atom::Char(p[k])
        };
        let n = if escape {
            k + 2
        } else {
            k + 1
        };
        assert(a == atom_at(p@, k as nat) && n == k + atom_len(p@, k as nat));
        let next;
        if n < len && p[n] == '*' {
            items.push(Item { atom: a, rep: Rep::Many });
            next = n + 1;
        } else if n < len && p[n] == '+' {
            items.push(Item { atom: a, rep: Rep::One });
            items.push(Item { atom: a, rep: Rep::Many });
            next = n + 1;
        } else if n < len && p[n] == '?' {
            items.push(Item { atom: a, rep: Rep::Optional });
            next = n + 1;
        } else {
            items.push(Item { atom: a, rep: Rep::One });
            next = n;
        }
        proof {
            let r = parse_from(p@, next as nat);
            assert(parse_from(p@, k as nat).0 == items@.subrange(before.len() as int, items@.len() as int)
                + r.0);
            assert(items@ =~= before + items@.subrange(before.len() as int, items@.len() as int));
            assert(parse_from(p@, k0 as nat).0 =~= items@ + r.0);
        }
        k = next;
    }
    let end = k < len;
    assert(parse_from(p@, k as nat).0 =~= Seq::<Item>::empty());
    assert(items@ + parse_from(p@, k as nat).0 =~= items@);
    Pattern { start, items, end }
}

/// Whether the items from `i` on match from position `j`, read from a column: the
/// column holds the items before the last, the last position is `tail`.
fn column_at(col: &Vec<bool>, i: usize, tail: bool) -> (b: bool)
    requires
        i <= col.len(),
    ensures
        b == if i < col.len() {
            col@[i as int]
        } else {
            tail
        },
{
    if i < col.len() {
        col[i]
    } else {
        tail
    }
}

impl Pattern {
    /// Whether the items from each `i` on match `t` from `j` on.
    fn column(&self, t: &Vec<char>, j: usize, next: &Vec<bool>) -> (col: Vec<bool>)
        requires
            j <= t.len(),
            j < t.len() ==> next.len() == self.items.len(),
            j < t.len() ==> forall|i: int|
                0 <= i < self.items.len() ==> next@[i] == match_from(
                    self.items@,
                    t@,
                    self.end,
                    i as nat,
                    (j + 1) as nat,
                ),
        ensures
            col.len() == self.items.len(),
            forall|i: int|
                0 <= i < self.items.len() ==> col@[i] == match_from(
                    self.items@,
                    t@,
                    self.end,
                    i as nat,
                    j as nat,
                ),
    {
        let n = self.items.len();
        let m = t.len();
        let tail = !self.end || j >= m;
        let next_tail = !self.end || m - j <= 1;
        assert(tail == match_from(self.items@, t@, self.end, n as nat, j as nat));
        assert(j < m ==> next_tail == match_from(self.items@, t@, self.end, n as nat, (j + 1) as nat));
        let mut col: Vec<bool> = Vec::new();
        let mut k: usize = 0;
        while k < n
            invariant
                k <= n,
                col.len() == k,
            decreases n - k,
        {
            col.push(false);
            k += 1;
        }
        let mut i: usize = n;
        while i > 0
            invariant
                n == self.items.len(),
                m == t.len(),
                j <= m,
                i <= n,
                col.len() == n,
                tail == match_from(self.items@, t@, self.end, n as nat, j as nat),
                j < m ==> next_tail == match_from(self.items@, t@, self.end, n as nat, (j + 1) as nat),
                j < m ==> next.len() == n,
                j < m ==> forall|q: int|
                    0 <= q < n ==> next@[q] == match_from(
                        self.items@,
                        t@,
                        self.end,
                        q as nat,
                        (j + 1) as nat,
                    ),
                forall|q: int|
                    i <= q < n ==> col@[q] == match_from(self.items@, t@, self.end, q as nat, j as nat),
            decreases i,
        {
            i -= 1;
            let it = self.items[i];
            let step = j < m && atom_accepts(it.atom, t[j]);
            let here = column_at(&col, i + 1, tail);
            let value = match it.rep {
                Rep::One => step && column_at(next, i + 1, next_tail),
                Rep::Optional => (step && column_at(next, i + 1, next_tail)) || here,
                Rep::Many => here || (step && next[i]),
            };
            assert(value == match_from(self.items@, t@, self.end, i as nat, j as nat));
            col.set(i, value);
        }
        col
    }

    /// Whether the pattern matches a part of `t`.
    pub fn finds(&self, t: &Vec<char>) -> (b: bool)
        ensures
            b == finds(self@, t@),
    {
        let m = t.len();
        let empty: Vec<bool> = Vec::new();
        let mut next = self.column(t, m, &empty);
        let mut j = m;
        let mut found = column_at(&next, 0, !self.end || m >= m);
        assert(found == match_from(self.items@, t@, self.end, 0, m as nat));
        while j > 0
            invariant
                m == t.len(),
                j <= m,
                next.len() == self.items.len(),
                forall|q: int|
                    0 <= q < self.items.len() ==> next@[q] == match_from(
                        self.items@,
                        t@,
                        self.end,
                        q as nat,
                        j as nat,
                    ),
                found == exists|k: nat|
                    j <= k <= m && #[trigger] match_from(self.items@, t@, self.end, 0, k),
            decreases j,
        {
            let cur = self.column(t, j - 1, &next);
            let here = column_at(&cur, 0, !self.end || j - 1 >= m);
            assert(here == match_from(self.items@, t@, self.end, 0, (j - 1) as nat));
            proof {
                if found {
                    let k = choose|k: nat| j <= k <= m && #[trigger] match_from(self.items@, t@, self.end, 0, k);
                    assert(j - 1 <= k <= m && match_from(self.items@, t@, self.end, 0, k));
                } else if !here {
                    assert forall|k: nat| j - 1 <= k <= m implies !#[trigger] match_from(
                        self.items@,
                        t@,
                        self.end,
                        0,
                        k,
                    ) by {
                        if k >= j {
                        }
                    }
                }
            }
            found = found || here;
            next = cur;
            j -= 1;
        }
        let first = column_at(&next, 0, !self.end || 0 >= m);
        assert(first == match_from(self.items@, t@, self.end, 0, 0));
        if self.start {
            first
        } else {
            assert(self@.items == self.items@ && self@.end == self.end && !self@.start);
            assert(finds(self@, t@) == exists|k: nat|
                k <= t@.len() && #[trigger] match_from(self.items@, t@, self.end, 0, k));
            found
        }
    }
}

/// Where the alternative starting at `k` ends.
fn branch_end_at(p: &Vec<char>, k: usize) -> (e: usize)
    requires
        k <= p.len(),
    ensures
        e == branch_end(p@, k as nat),
{
    let len = p.len();
    let mut i = k;
    while i < len && p[i] != '|'
        invariant
            len == p.len(),
            k <= i <= len,
            branch_end(p@, k as nat) == branch_end(p@, i as nat),
        decreases len - i,
    {
        if p[i] == '\\' && i + 1 < len {
            i = i + 2;
        } else {
            i = i + 1;
        }
    }
    i
}

/// The characters `p[lo..hi]`.
fn chars_between(p: &Vec<char>, lo: usize, hi: usize) -> (r: Vec<char>)
    requires
        lo <= hi <= p.len(),
    ensures
        r@ == p@.subrange(lo as int, hi as int),
{
    let mut r: Vec<char> = Vec::new();
    let mut i = lo;
    while i < hi
        invariant
            lo <= i <= hi <= p.len(),
            r@ == p@.subrange(lo as int, i as int),
        decreases hi - i,
    {
        r.push(p[i]);
        assert(r@ =~= p@.subrange(lo as int, i + 1));
        i += 1;
    }
    r
}

/// Parses the alternatives of the pattern written in `p`.
pub fn parse_alternatives(p: &Vec<char>) -> (r: Vec<Pattern>)
    ensures
        views(r@) == alternatives(p@),
{
    let len = p.len();
    let mut r: Vec<Pattern> = Vec::new();
    let mut k: usize = 0;
    let mut done = false;
    while !done
        invariant
            len == p.len(),
            k <= len,
            !done ==> alternatives(p@) == views(r@) + branches_from(p@, k as nat),
            done ==> alternatives(p@) == views(r@),
        decreases (if done {
            0int
        } else {
            len - k + 1
        }),
    {
        let e = branch_end_at(p, k);
        proof {
            lemma_branch_end(p@, k as nat);
        }
        let sub = chars_between(p, k, e);
        let head = parse_pattern(&sub);
        let ghost before = r@;
        r.push(head);
        assert(views(r@) =~= views(before) + seq![head@]);
        if e < len {
            assert(branches_from(p@, k as nat) == seq![head@] + branches_from(p@, (e + 1) as nat));
            assert(views(before) + branches_from(p@, k as nat) =~= views(r@) + branches_from(
                p@,
                (e + 1) as nat,
            ));
            k = e + 1;
        } else {
            assert(branches_from(p@, k as nat) == seq![head@]);
            assert(views(before) + branches_from(p@, k as nat) =~= views(r@));
            done = true;
        }
    }
    r
}

/// Whether one of the patterns matches a part of `t`.
pub fn finds_any(pats: &Vec<Pattern>, t: &Vec<char>) -> (b: bool)
    ensures
        b == matches_any(views(pats@), t@),
{
    let mut i: usize = 0;
    while i < pats.len()
        invariant
            0 <= i <= pats.len(),
            forall|q: int| 0 <= q < i ==> !finds(#[trigger] views(pats@)[q], t@),
        decreases pats.len() - i,
    {
        if pats[i].finds(t) {
            assert(finds(views(pats@)[i as int], t@));
            return true;
        }
        assert(!finds(views(pats@)[i as int], t@));
        i += 1;
    }
    false
}

/// Whether the pattern written in `pattern` matches a part of `text`.
pub fn regex_matches(pattern: &str, text: &str) -> (b: bool)
    ensures
        b == pattern_matches(pattern@, text@),
{
    let p = chars_of(pattern);
    let t = chars_of(text);
    let alts = parse_alternatives(&p);
    finds_any(&alts, &t)
}

} // verus!
