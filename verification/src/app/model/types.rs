//! Plain data shared by the application state: panes, modals, commands, regions and
//! the paginated response.

use std::time::Instant;

use vstd::prelude::*;

use crate::app::model::forms::FormState;
use crate::text::{join_lines, joined, lemma_joined_append, lines, lines_of};

verus! {

/// The monotonic clock reading of `std::time::Instant`.
#[verifier::external_type_specification]
#[verifier::external_body]
pub struct ExInstant(Instant);

/// Cached wrapped line metrics for the currently displayed response page.
#[derive(Debug, Clone, Copy, PartialEq, Eq, Structural)]
pub struct WrapMetrics {
    pub page: usize,
    pub wrap_width: u16,
    pub wrapped_lines: u16,
}

/// Identifies which pane currently has keyboard focus.
#[derive(Debug, Clone, Copy, PartialEq, Eq, Structural)]
pub enum FocusPane {
    Methods,
    Request,
    Response,
}

/// Active modal overlay state.
#[derive(Debug, Clone, Copy, PartialEq, Eq, Structural)]
pub enum ModalState {
    Closed,
    About,
    Settings,
    Info,
}

/// Commands returned by input handlers to the main event loop.
///
/// Besides sending a request and quitting, the loop performs the two other kinds of
/// outside work that input can call for, and reports back how they went.
#[derive(Debug)]
pub enum AppCommand {
    /// Execute the current RPC request
    SendRequest,
    /// Quit the application
    Quit,
    /// Persist the settings; report the outcome with `App::finish_settings_save`
    SaveSettings {
        /// Status shown when saving succeeds
        success_message: String,
    },
    /// Put text on the clipboard; report the outcome with `App::finish_copy`
    CopyText {
        /// Text to copy
        text: String,
        /// Status shown when copying succeeds
        success_message: String,
        /// Whether the response selection is cleared once copying succeeds
        clear_selection: bool,
    },
}

/// A status message that automatically expires after a given duration.
pub struct TimedStatus {
    pub message: String,
    pub created: Instant,
    pub duration_secs: u64,
}

/// Inline editor state for adding or editing a network.
#[derive(Debug, Clone)]
pub struct NetworkEditor {
    /// Form fields for network name and endpoint
    pub form: FormState,
    /// Some(index) when editing an existing network, None when adding
    pub editing_index: Option<usize>,
}

/// A rectangle of terminal cells.
#[derive(Debug, Clone, Copy, PartialEq, Eq, Structural)]
pub struct Rect {
    pub x: u16,
    pub y: u16,
    pub width: u16,
    pub height: u16,
}

/// Cached regions for methods, request, and response panes.
#[derive(Debug, Clone, Copy, PartialEq, Eq, Structural)]
pub struct UiRegions {
    pub methods: Rect,
    pub request: Rect,
    pub response: Rect,
}

/// Split response data for paginated display.
pub struct PaginatedResponse {
    /// Lines of the response, split once on receipt
    pub lines: Vec<String>,
    /// Total number of lines
    pub total_lines: usize,
    /// Number of lines per page
    pub page_size: usize,
    /// Total number of pages
    pub total_pages: usize,
}

/// Number of pages that `total` lines fill with `size` lines per page; one page
/// when there are no lines.
pub open spec fn page_count(total: nat, size: nat) -> nat {
    if total == 0 {
        1
    } else {
        ((total + size - 1) / (size as int)) as nat
    }
}

/// First line of a page.
pub open spec fn page_start(page: nat, size: nat) -> nat {
    page * size
}

/// One past the last line of a page.
pub open spec fn page_end(page: nat, size: nat, total: nat) -> nat {
    if page * size + size <= total {
        page * size + size
    } else {
        total
    }
}

/// The lines shown on a page of `lines`, with `total` lines counted and `size` lines
/// per page.
pub open spec fn page_slice(lines: Seq<Seq<char>>, total: nat, size: nat, page: nat) -> Seq<
    Seq<char>,
> {
    let start = page_start(page, size);
    if start >= total {
        Seq::empty()
    } else {
        lines.subrange(start as int, page_end(page, size, total) as int)
    }
}

/// Number of lines on a page with `total` lines counted and `size` lines per page.
pub open spec fn page_len(total: nat, size: nat, page: nat) -> nat {
    let start = page_start(page, size);
    if start >= total {
        0
    } else {
        (page_end(page, size, total) - start) as nat
    }
}

impl PaginatedResponse {
    /// The lines as texts.
    pub open spec fn line_texts(&self) -> Seq<Seq<char>> {
        self.lines.deep_view()
    }

    /// The state that `from_text` builds: lines split once, counts that agree.
    pub open spec fn well_formed(&self) -> bool {
        &&& self.total_lines == self.lines.len()
        &&& (self.total_lines > 0 ==> self.page_size > 0)
        &&& self.total_pages == page_count(self.total_lines as nat, self.page_size as nat)
    }

    /// The lines shown on a page.
    pub open spec fn page_lines(&self, page: nat) -> Seq<Seq<char>> {
        page_slice(self.line_texts(), self.total_lines as nat, self.page_size as nat, page)
    }

    /// Builds a paginated view from the raw response text.
    pub fn from_text(text: &str, page_size: usize) -> (r: Self)
        requires
            page_size > 0 || lines_of(text@).len() == 0,
        ensures
            r.line_texts() == lines_of(text@),
            r.total_lines == lines_of(text@).len(),
            r.page_size == page_size,
            r.total_pages == page_count(r.total_lines as nat, page_size as nat),
            r.well_formed(),
    {
        let lines = lines(text);
        let total_lines = lines.len();
        proof {
            if total_lines > 0 && total_lines % page_size != 0 {
                let q = total_lines / page_size;
                assert(q < usize::MAX) by (nonlinear_arith)
                    requires
                        q == total_lines / page_size,
                        total_lines % page_size != 0,
                        page_size > 0,
                        total_lines <= usize::MAX,
                {
                    assert(total_lines == page_size * q + total_lines % page_size);
                }
            }
        }
        let total_pages = if total_lines == 0 {
            1
        } else {
            total_lines / page_size + if total_lines % page_size == 0 {
                0
            } else {
                1
            }
        };
        proof {
            if total_lines > 0 {
                lemma_page_count(total_lines as nat, page_size as nat);
            }
        }
        PaginatedResponse { lines, total_lines, page_size, total_pages }
    }

    /// First line and end of a page, when the page starts before the last line.
    pub fn page_range(&self, page: usize) -> (r: Option<(usize, usize)>)
        ensures
            match r {
                Some((start, end)) => start == page_start(page as nat, self.page_size as nat)
                    && start < self.total_lines && end == page_end(
                    page as nat,
                    self.page_size as nat,
                    self.total_lines as nat,
                ),
                None => page_start(page as nat, self.page_size as nat) >= self.total_lines,
            },
    {
        match page.checked_mul(self.page_size) {
            None => None,
            Some(start) => {
                if start >= self.total_lines {
                    None
                } else if self.total_lines - start > self.page_size {
                    Some((start, start + self.page_size))
                } else {
                    Some((start, self.total_lines))
                }
            },
        }
    }

    /// Returns the text for the given 0 based page index.
    pub fn page_text(&self, page: usize) -> (out: String)
        requires
            self.total_lines <= self.lines.len(),
        ensures
            out@ == joined(self.page_lines(page as nat)),
    {
        match self.page_range(page) {
            None => String::new(),
            Some((start, end)) => join_lines(&self.lines, start, end),
        }
    }

    /// Returns the line count for a given page.
    pub fn page_line_count(&self, page: usize) -> (n: usize)
        ensures
            n == self.page_lines_len(page as nat),
    {
        match self.page_range(page) {
            None => 0,
            Some((start, end)) => end - start,
        }
    }

    /// Number of lines on a page.
    pub open spec fn page_lines_len(&self, page: nat) -> nat {
        page_len(self.total_lines as nat, self.page_size as nat, page)
    }
}

/// Ceiling division as `from_text` computes it.
proof fn lemma_page_count(total: nat, size: nat)
    requires
        total > 0,
        size > 0,
    ensures
        total / size + (if total % size == 0 {
            0nat
        } else {
            1nat
        }) == page_count(total, size),
{
    assert(total == size * (total / size) + total % size) by (nonlinear_arith)
        requires
            size > 0,
    ;
    let q = total / size;
    let r = total % size;
    assert(0 <= r < size) by (nonlinear_arith)
        requires
            size > 0,
            r == total % size,
    ;
    if r == 0 {
        assert((total + size - 1) / (size as int) == q) by (nonlinear_arith)
            requires
                total == size * q,
                size > 0,
        ;
    } else {
        assert((total + size - 1) / (size as int) == q + 1) by (nonlinear_arith)
            requires
                total == size * q + r,
                0 < r < size,
        ;
    }
}

/// The pages `0..k` of `lines`, one after another.
pub open spec fn pages_joined(lines: Seq<Seq<char>>, size: nat, k: nat) -> Seq<Seq<char>>
    decreases k,
{
    if k == 0 {
        Seq::empty()
    } else {
        pages_joined(lines, size, (k - 1) as nat) + page_slice(
            lines,
            lines.len(),
            size,
            (k - 1) as nat,
        )
    }
}

/// The first `k` pages are the first `k * size` lines.
proof fn lemma_pages_prefix(lines: Seq<Seq<char>>, size: nat, k: nat)
    requires
        size > 0,
    ensures
        pages_joined(lines, size, k) == lines.subrange(
            0,
            if k * size <= lines.len() {
                (k * size) as int
            } else {
                lines.len() as int
            },
        ),
    decreases k,
{
    let n = lines.len();
    if k == 0 {
        assert(k * size == 0) by (nonlinear_arith)
            requires
                k == 0,
        ;
        assert(lines.subrange(0, 0) =~= Seq::<Seq<char>>::empty());
    } else {
        let p = (k - 1) as nat;
        lemma_pages_prefix(lines, size, p);
        assert(p * size + size == k * size) by (nonlinear_arith)
            requires
                p == k - 1,
        ;
        assert(page_start(p, size) == p * size);
        assert(pages_joined(lines, size, k) == pages_joined(lines, size, p) + page_slice(
            lines,
            n,
            size,
            p,
        ));
        if p * size >= n {
            assert(k * size >= n);
            assert(page_slice(lines, n, size, p) =~= Seq::<Seq<char>>::empty());
            assert(pages_joined(lines, size, p) == lines.subrange(0, n as int));
            assert(pages_joined(lines, size, k) =~= pages_joined(lines, size, p));
        } else {
            let end = page_end(p, size, n);
            assert(page_slice(lines, n, size, p) == lines.subrange((p * size) as int, end as int));
            assert(pages_joined(lines, size, p) == lines.subrange(0, (p * size) as int));
            assert(end == if k * size <= n { k * size } else { n });
            assert(lines.subrange(0, (p * size) as int) + lines.subrange((p * size) as int, end as int)
                =~= lines.subrange(0, end as int));
        }
    }
}

/// Splitting a response into pages loses and repeats no line: the pages, one after
/// another, are the lines, and no page holds more than a page's worth.
pub proof fn lemma_pages_cover(lines: Seq<Seq<char>>, size: nat, page: nat)
    requires
        size > 0,
    ensures
        pages_joined(lines, size, page_count(lines.len(), size)) == lines,
        page_len(lines.len(), size, page) <= size,
{
    let n = lines.len();
    let k = page_count(n, size);
    lemma_pages_prefix(lines, size, k);
    if n > 0 {
        assert(k * size >= n) by (nonlinear_arith)
            requires
                size > 0,
                n > 0,
                k == (n + size - 1) / (size as int),
        ;
    }
    assert(lines.subrange(0, n as int) =~= lines);
    assert(page * size + size == (page + 1) * size) by (nonlinear_arith);
}

/// The texts of the pages `0..k`, each page's lines joined with `\n`.
pub open spec fn page_texts(lines: Seq<Seq<char>>, size: nat, k: nat) -> Seq<Seq<char>> {
    Seq::new(k, |p: int| joined(page_slice(lines, lines.len(), size, p as nat)))
}

/// The line counts of the pages `0..k` added up.
pub open spec fn pages_line_total(total: nat, size: nat, k: nat) -> nat
    decreases k,
{
    if k == 0 {
        0
    } else {
        pages_line_total(total, size, (k - 1) as nat) + page_len(total, size, (k - 1) as nat)
    }
}

/// A page before the last page count starts before the last line.
proof fn lemma_page_starts_inside(total: nat, size: nat, p: nat)
    requires
        size > 0,
        total > 0,
        p < page_count(total, size),
    ensures
        p * size < total,
{
    let k = page_count(total, size);
    assert(k * size <= total + size - 1) by (nonlinear_arith)
        requires
            size > 0,
            k == (total + size - 1) / (size as int),
    ;
    assert(p * size + size <= k * size) by (nonlinear_arith)
        requires
            p + 1 <= k,
    ;
}

/// The first `k` page texts, joined, are the first `k` pages' lines joined.
proof fn lemma_page_texts_prefix(lines: Seq<Seq<char>>, size: nat, k: nat)
    requires
        size > 0,
        lines.len() > 0,
        1 <= k <= page_count(lines.len(), size),
    ensures
        joined(page_texts(lines, size, k)) == joined(pages_joined(lines, size, k)),
        pages_joined(lines, size, k).len() > 0,
    decreases k,
{
    let n = lines.len();
    let p = (k - 1) as nat;
    lemma_page_starts_inside(n, size, p);
    assert(page_start(p, size) == p * size);
    let slice = page_slice(lines, n, size, p);
    assert(slice.len() > 0) by {
        assert(page_end(p, size, n) > p * size);
    }
    if k == 1 {
        assert(page_texts(lines, size, k) =~= seq![joined(slice)]);
        assert(pages_joined(lines, size, k) =~= slice);
    } else {
        lemma_page_texts_prefix(lines, size, p);
        assert(page_texts(lines, size, k) =~= page_texts(lines, size, p).push(joined(slice)));
        assert(page_texts(lines, size, p).push(joined(slice)).drop_last() =~= page_texts(lines, size, p));
        lemma_joined_append(pages_joined(lines, size, p), slice);
    }
}

/// The page texts of a response, joined with `\n`, give back its lines joined
/// with `\n`: no line is lost or repeated across pages.
pub proof fn lemma_page_texts_cover(lines: Seq<Seq<char>>, size: nat)
    requires
        size > 0,
    ensures
        joined(page_texts(lines, size, page_count(lines.len(), size))) == joined(lines),
{
    let n = lines.len();
    lemma_pages_cover(lines, size, 0);
    if n == 0 {
        assert(page_slice(lines, n, size, 0) =~= Seq::<Seq<char>>::empty());
        assert(page_texts(lines, size, 1) =~= seq![Seq::<char>::empty()]);
    } else {
        assert(page_count(n, size) >= 1) by (nonlinear_arith)
            requires
                size > 0,
                n > 0,
                page_count(n, size) == (n + size - 1) / (size as int),
        ;
        lemma_page_texts_prefix(lines, size, page_count(n, size));
    }
}

/// The line counts of the first `k` pages add up to `k` pages' worth, or all the
/// lines when there are fewer.
proof fn lemma_pages_line_total_prefix(total: nat, size: nat, k: nat)
    requires
        size > 0,
    ensures
        pages_line_total(total, size, k) == if k * size <= total {
            k * size
        } else {
            total
        },
    decreases k,
{
    if k == 0 {
        assert(k * size == 0) by (nonlinear_arith)
            requires
                k == 0,
        ;
    } else {
        let p = (k - 1) as nat;
        lemma_pages_line_total_prefix(total, size, p);
        assert(p * size + size == k * size) by (nonlinear_arith)
            requires
                p == k - 1,
        ;
    }
}

/// The line counts of all pages add up to the number of lines.
pub proof fn lemma_page_counts_sum(total: nat, size: nat)
    requires
        size > 0,
    ensures
        pages_line_total(total, size, page_count(total, size)) == total,
{
    let k = page_count(total, size);
    lemma_pages_line_total_prefix(total, size, k);
    if total > 0 {
        assert(k * size >= total) by (nonlinear_arith)
            requires
                size > 0,
                total > 0,
                k == (total + size - 1) / (size as int),
        ;
    } else {
        assert(k * size >= total);
    }
}

} // verus!
