//! Response pane: scrolling, pagination, mouse selection, copying and search.

use vstd::prelude::*;

use crate::app::features::clock::clock_now;
use crate::app::features::wrapping::{
    row_count, selected_text, selection_text, total_rows, wrap_text_lines, wrapped_text,
};
use crate::app::model::forms::{form_of_specs, FormState};
use crate::app::model::state::{
    command_view, sat_add, sat_sub, App, AppView, CommandView, PagesView, DEFAULT_PAGE_SIZE,
};
use crate::app::model::types::{
    page_count, page_len, page_slice, AppCommand, FocusPane, PaginatedResponse, UiRegions,
    WrapMetrics,
};
use crate::app::methods::ErrorMap;
use crate::pattern::{alternatives, finds_any, parse_alternatives, pattern_matches, views};
use crate::text::{
    char_count, chars_of, joined, lines, lines_of, owned, to_lowercase,
    unicode_lowercase,
};

verus! {

/// Whether the (lower-cased) search pattern matches a part of a line, ignoring
/// case.
pub open spec fn line_matches(line: Seq<char>, query_lower: Seq<char>) -> bool {
    pattern_matches(query_lower, unicode_lowercase(line))
}

/// Indices, in increasing order, of the first `n` lines that the query matches.
pub open spec fn match_indices(lines: Seq<Seq<char>>, query_lower: Seq<char>, n: nat) -> Seq<usize>
    decreases n,
{
    if n == 0 {
        Seq::empty()
    } else {
        match_indices(lines, query_lower, (n - 1) as nat) + if line_matches(
            lines[n - 1],
            query_lower,
        ) {
            seq![(n - 1) as usize]
        } else {
            Seq::empty()
        }
    }
}

/// The pages of a response text, `DEFAULT_PAGE_SIZE` lines each.
pub open spec fn pages_of(text: Seq<char>) -> PagesView {
    PagesView {
        lines: lines_of(text),
        total_lines: lines_of(text).len() as usize,
        page_size: DEFAULT_PAGE_SIZE,
        total_pages: page_count(lines_of(text).len(), DEFAULT_PAGE_SIZE as nat) as usize,
    }
}

/// Position of the selected field within `0..n` moved by one.
pub open spec fn row_after_delta(scroll: u16, delta: i16, max_scroll: int) -> u16 {
    if delta < 0 {
        sat_sub(scroll as int, 1) as u16
    } else if scroll < max_scroll {
        (scroll + 1) as u16
    } else {
        scroll
    }
}

impl AppView {
    /// The state without a response selection.
    pub open spec fn without_selection(self) -> AppView {
        AppView {
            response_selection_start: None,
            response_selection_end: None,
            response_selecting: false,
            ..self
        }
    }

    /// The state without a response search.
    pub open spec fn without_search(self) -> AppView {
        AppView {
            response_search_query: Seq::empty(),
            response_search_cursor: 0,
            response_search_matches: Seq::empty(),
            response_search_current: 0,
            ..self
        }
    }

    /// Lines of a page of the response: of the paginated response when there is one,
    /// else of the whole response text.
    pub open spec fn lines_for_page(self, page: nat) -> Seq<Seq<char>> {
        match self.paginated_response {
            Some(p) => page_slice(p.lines, p.total_lines as nat, p.page_size as nat, page),
            None => lines_of(self.last_response),
        }
    }

    /// Text of the current page, or the whole response when it is not paginated.
    pub open spec fn page_text(self) -> Seq<char> {
        match self.paginated_response {
            Some(p) => joined(self.lines_for_page(self.response_page as nat)),
            None => self.last_response,
        }
    }

    /// Number of lines of the current page.
    pub open spec fn page_line_count(self) -> nat {
        match self.paginated_response {
            Some(p) => page_len(p.total_lines as nat, p.page_size as nat, self.response_page as nat),
            None => lines_of(self.last_response).len(),
        }
    }

    /// Width the response wraps at: the inner width of the response pane, at least
    /// one, or 80 before the layout is known.
    pub open spec fn wrap_width(self) -> u16 {
        match self.ui_regions {
            Some(r) => if sat_sub(r.response.width as int, 2) >= 1 {
                sat_sub(r.response.width as int, 2) as u16
            } else {
                1
            },
            None => 80,
        }
    }

    /// Rows the response pane shows: its inner height, or 10 before the layout is known.
    pub open spec fn visible_rows(self) -> u16 {
        match self.ui_regions {
            Some(r) => sat_sub(r.response.height as int, 2) as u16,
            None => 10,
        }
    }

    /// Wrapped rows of a page at a width; with width zero the line count of the current page.
    pub open spec fn page_rows(self, page: nat, width: nat) -> nat {
        if width == 0 {
            self.page_line_count()
        } else {
            total_rows(self.lines_for_page(page), width)
        }
    }

    /// Whether the cached wrapped row count is for the current page and width.
    pub open spec fn metrics_fresh(self) -> bool {
        self.wrap_metrics matches Some(m) && m.page == self.response_page && m.wrap_width
            == self.wrap_width()
    }

    /// Wrapped row count of the current page: the cached one when fresh, else counted
    /// and clipped to `u16::MAX`.
    pub open spec fn current_rows(self) -> u16 {
        if self.metrics_fresh() {
            self.wrap_metrics->0.wrapped_lines
        } else {
            let n = self.page_rows(self.response_page as nat, self.wrap_width() as nat);
            if n < u16::MAX {
                n as u16
            } else {
                u16::MAX
            }
        }
    }

    /// The state with the wrapped row count cached for the current page and width.
    pub open spec fn with_metrics(self) -> AppView {
        if self.metrics_fresh() {
            self
        } else {
            AppView {
                wrap_metrics: Some(
                    WrapMetrics {
                        page: self.response_page,
                        wrap_width: self.wrap_width(),
                        wrapped_lines: self.current_rows(),
                    },
                ),
                ..self
            }
        }
    }

    /// The state after scrolling the response by one row in the direction of `delta`.
    pub open spec fn after_scroll(self, delta: i16) -> AppView {
        let max_scroll = sat_sub(self.current_rows() as int, self.visible_rows() as int);
        AppView {
            response_scroll: row_after_delta(self.response_scroll, delta, max_scroll),
            ..self.with_metrics()
        }
    }

    /// The state after jumping to the end of the current page.
    pub open spec fn after_jump_end(self) -> AppView {
        AppView {
            response_scroll: sat_sub(self.current_rows() as int, self.visible_rows() as int) as u16,
            ..self.with_metrics()
        }
    }

    /// Wrapped row and column under a mouse position inside the response pane.
    pub open spec fn position_at(self, column: u16, row: u16) -> Option<(usize, usize)> {
        match self.ui_regions {
            None => None,
            Some(r) => {
                let rect = r.response;
                let inner_x = sat_add(rect.x as int, 1, u16::MAX as int);
                let inner_y = sat_add(rect.y as int, 1, u16::MAX as int);
                let inner_w = sat_sub(rect.width as int, 2);
                let inner_h = sat_sub(rect.height as int, 2);
                if inner_w == 0 || inner_h == 0 {
                    None
                } else if column < inner_x || row < inner_y {
                    None
                } else if column - inner_x >= inner_w || row - inner_y >= inner_h {
                    None
                } else {
                    Some(
                        (
                            (self.response_scroll + (row - inner_y)) as usize,
                            (column - inner_x) as usize,
                        ),
                    )
                }
            },
        }
    }

    /// The state after pressing the mouse at a position: a selection starts there.
    pub open spec fn after_begin_selection(self, column: u16, row: u16) -> AppView {
        match self.position_at(column, row) {
            Some(p) => AppView {
                response_selection_start: Some(p),
                response_selection_end: Some(p),
                response_selecting: true,
                ..self
            },
            None => self,
        }
    }

    /// The state after dragging the mouse to a position during a selection.
    pub open spec fn after_update_selection(self, column: u16, row: u16) -> AppView {
        if !self.response_selecting {
            self
        } else {
            match self.position_at(column, row) {
                Some(p) => AppView { response_selection_end: Some(p), ..self },
                None => self,
            }
        }
    }

    /// The state after releasing the mouse: an empty selection is dropped.
    pub open spec fn after_finish_selection(self) -> AppView {
        let s = AppView { response_selecting: false, ..self };
        if self.response_selection_start == self.response_selection_end {
            s.without_selection()
        } else {
            s
        }
    }

    /// The selection from its earlier to its later end, when it is not empty.
    pub open spec fn selection_range(self) -> Option<((usize, usize), (usize, usize))> {
        match (self.response_selection_start, self.response_selection_end) {
            (Some(s), Some(e)) => if s == e {
                None
            } else if s.0 < e.0 || (s.0 == e.0 && s.1 <= e.1) {
                Some((s, e))
            } else {
                Some((e, s))
            },
            _ => None,
        }
    }

    /// The wrapped rows of the current page.
    pub open spec fn wrapped_rows(self) -> Seq<Seq<char>> {
        wrapped_text(self.page_text(), self.wrap_width() as nat)
    }

    /// The selected text of the current page.
    pub open spec fn selection_content(self) -> Option<Seq<char>> {
        match self.selection_range() {
            Some((s, e)) => selected_text(
                self.wrapped_rows(),
                s.0 as int,
                s.1 as int,
                e.0 as int,
                e.1 as int,
            ),
            None => None,
        }
    }

    /// Copying: nothing when there is no response; else the selection, or the current
    /// page when nothing is selected.
    pub open spec fn after_copy(self) -> (AppView, Option<CommandView>) {
        if self.last_response.len() == 0 {
            (self.with_status("Nothing to copy"@, 3), None)
        } else {
            match self.selection_content() {
                Some(t) => if t.len() > 0 {
                    (
                        self,
                        Some(
                            CommandView::CopyText {
                                text: t,
                                success_message: "Selection copied!"@,
                                clear_selection: true,
                            },
                        ),
                    )
                } else {
                    (
                        self,
                        Some(
                            CommandView::CopyText {
                                text: self.page_text(),
                                success_message: "Current page copied!"@,
                                clear_selection: false,
                            },
                        ),
                    )
                },
                None => (
                    self,
                    Some(
                        CommandView::CopyText {
                            text: self.page_text(),
                            success_message: "Current page copied!"@,
                            clear_selection: false,
                        },
                    ),
                ),
            }
        }
    }

    /// The state after splitting the response into pages anew, at its first page.
    pub open spec fn after_rebuild_pagination(self) -> AppView {
        AppView {
            response_scroll: 0,
            response_page: 0,
            wrap_metrics: None,
            paginated_response: if self.last_response.len() == 0 {
                None
            } else {
                Some(pages_of(self.last_response))
            },
            ..self.without_selection()
        }
    }

    /// The state after turning to the next page, when there is one.
    pub open spec fn after_next_page(self) -> AppView {
        match self.paginated_response {
            Some(p) => if self.response_page + 1 < p.total_pages {
                AppView {
                    response_page: (self.response_page + 1) as usize,
                    response_scroll: 0,
                    wrap_metrics: None,
                    ..self.without_selection()
                }
            } else {
                self
            },
            None => self,
        }
    }

    /// The state after turning to the previous page, when there is one.
    pub open spec fn after_prev_page(self) -> AppView {
        if self.response_page > 0 {
            AppView {
                response_page: (self.response_page - 1) as usize,
                response_scroll: 0,
                wrap_metrics: None,
                ..self.without_selection()
            }
        } else {
            self
        }
    }

    /// The state after clearing the selected method's form and the response.
    pub open spec fn after_purge(self) -> AppView {
        let sel = self.selected_method as int;
        AppView {
            request_forms: self.request_forms.update(sel, form_of_specs(self.methods[sel].fields@)),
            method_errors: self.method_errors.update(sel, Map::empty()),
            last_response: Seq::empty(),
            response_scroll: 0,
            response_page: 0,
            paginated_response: None,
            wrap_metrics: None,
            ..self.without_search().without_selection()
        }.with_status("Data cleared!"@, 3)
    }

    /// The search matches of the current query on the current page.
    pub open spec fn search_matches(self) -> Seq<usize> {
        if self.response_search_query.len() == 0 || self.last_response.len() == 0 {
            Seq::empty()
        } else {
            let ls = lines_of(self.page_text());
            match_indices(ls, unicode_lowercase(self.response_search_query), ls.len())
        }
    }

    /// The state after recomputing the search matches.
    pub open spec fn after_search_update(self) -> AppView {
        AppView {
            search_changed: true,
            response_search_matches: self.search_matches(),
            response_search_current: 0,
            ..self
        }
    }

    /// The state scrolled to the current search match, when there is one.
    pub open spec fn after_scroll_to_match(self) -> AppView {
        if self.response_search_current < self.response_search_matches.len() {
            AppView {
                response_scroll: self.response_search_matches[self.response_search_current as int] as u16,
                ..self
            }
        } else {
            self
        }
    }

    /// The state at the next search match, wrapping around.
    pub open spec fn after_next_match(self) -> AppView {
        let n = self.response_search_matches.len();
        if n == 0 {
            self
        } else {
            AppView {
                response_search_current: ((self.response_search_current + 1) % (n as int)) as usize,
                ..self
            }.after_scroll_to_match()
        }
    }

    /// The state at the previous search match, wrapping around.
    pub open spec fn after_prev_match(self) -> AppView {
        let n = self.response_search_matches.len();
        if n == 0 {
            self
        } else {
            AppView {
                response_search_current: if self.response_search_current == 0 {
                    (n - 1) as usize
                } else {
                    (self.response_search_current - 1) as usize
                },
                ..self
            }.after_scroll_to_match()
        }
    }

    /// Whether the search box shows: the response pane is fullscreen.
    pub open spec fn search_visible(self) -> bool {
        self.zoomed_pane == Some(FocusPane::Response)
    }

    /// Whether the search box takes input: it shows and there is a response.
    pub open spec fn search_enabled(self) -> bool {
        self.search_visible() && self.last_response.len() > 0
    }
}

impl App {
    /// Records the screen regions of the panes.
    pub fn set_ui_regions(&mut self, regions: UiRegions)
        ensures
            final(self)@ == (AppView { ui_regions: Some(regions), ..old(self)@ }),
    {
        self.ui_regions = Some(regions);
    }

    /// Width the response wraps at.
    fn response_wrap_width(&self) -> (w: u16)
        ensures
            w == self@.wrap_width(),
    {
        match self.ui_regions {
            Some(r) => {
                let w = if r.response.width >= 2 {
                    r.response.width - 2
                } else {
                    0
                };
                if w >= 1 {
                    w
                } else {
                    1
                }
            },
            None => 80,
        }
    }

    /// Rows the response pane shows.
    fn visible_rows(&self) -> (h: u16)
        ensures
            h == self@.visible_rows(),
    {
        match self.ui_regions {
            Some(r) => if r.response.height >= 2 {
                r.response.height - 2
            } else {
                0
            },
            None => 10,
        }
    }

    /// Returns text for current page or full response.
    pub fn current_page_text(&self) -> (out: String)
        requires
            self@.wf(),
        ensures
            out@ == self@.page_text(),
    {
        match &self.paginated_response {
            Some(pag) => pag.page_text(self.response_page),
            None => self.last_response.clone(),
        }
    }

    /// Returns line count for current page.
    fn current_page_line_count(&self) -> (n: usize)
        ensures
            n == self@.page_line_count(),
    {
        match &self.paginated_response {
            Some(pag) => pag.page_line_count(self.response_page),
            None => lines(self.last_response.as_str()).len(),
        }
    }

    /// Wrapped rows of the current page at `wrap_width`, clipped to `usize::MAX`.
    fn wrapped_line_count_for_page(&self, page: usize, wrap_width: u16) -> (n: usize)
        requires
            self@.wf(),
        ensures
            n == (if self@.page_rows(page as nat, wrap_width as nat) < usize::MAX {
                self@.page_rows(page as nat, wrap_width as nat)
            } else {
                usize::MAX as nat
            }),
    {
        let wrap = wrap_width as usize;
        if wrap == 0 {
            return self.current_page_line_count();
        }
        match &self.paginated_response {
            Some(pag) => {
                let n = pag.lines.len();
                match pag.page_range(page) {
                    Some((start, end)) => {
                        assert(pag.line_texts().subrange(start as int, end as int) =~= self@.lines_for_page(page as nat));
                        rows_in(&pag.lines, start, end, wrap)
                    },
                    None => {
                        assert(pag.line_texts().subrange(n as int, n as int) =~= self@.lines_for_page(page as nat));
                        rows_in(&pag.lines, n, n, wrap)
                    },
                }
            },
            None => {
                let ls = lines(self.last_response.as_str());
                let n = ls.len();
                assert(ls.deep_view().subrange(0, n as int) =~= self@.lines_for_page(page as nat));
                rows_in(&ls, 0, n, wrap)
            },
        }
    }
}

impl App {
    /// Wrapped row count of the current page, cached per page and width.
    fn current_page_wrapped_line_count(&mut self) -> (n: u16)
        requires
            old(self)@.wf(),
        ensures
            n == old(self)@.current_rows(),
            final(self)@ == old(self)@.with_metrics(),
    {
        let wrap_width = self.response_wrap_width();
        let page = self.response_page;
        if let Some(metrics) = self.wrap_metrics {
            if metrics.page == page && metrics.wrap_width == wrap_width {
                return metrics.wrapped_lines;
            }
        }
        let count = self.wrapped_line_count_for_page(page, wrap_width);
        let wrapped_lines: u16 = if count < 65535 {
            count as u16
        } else {
            65535
        };
        self.wrap_metrics = Some(WrapMetrics { page, wrap_width, wrapped_lines });
        wrapped_lines
    }

    /// Scrolls the response one row up (negative `delta`) or down, within the page.
    pub fn scroll_response(&mut self, delta: i16)
        requires
            old(self)@.wf(),
        ensures
            final(self)@ == old(self)@.after_scroll(delta),
    {
        let line_count = self.current_page_wrapped_line_count();
        let visible = self.visible_rows();
        let max_scroll = if line_count >= visible {
            line_count - visible
        } else {
            0
        };
        if delta < 0 {
            self.response_scroll = if self.response_scroll >= 1 {
                self.response_scroll - 1
            } else {
                0
            };
        } else if self.response_scroll < max_scroll {
            self.response_scroll = self.response_scroll + 1;
        }
    }

    /// Wrapped row and column under a mouse position inside the response pane.
    fn response_position_from_mouse(&self, column: u16, row: u16) -> (r: Option<(usize, usize)>)
        ensures
            r == self@.position_at(column, row),
    {
        let rect = match self.ui_regions {
            Some(regions) => regions.response,
            None => return None,
        };
        let inner_x = rect.x.saturating_add(1);
        let inner_y = rect.y.saturating_add(1);
        let inner_w = if rect.width >= 2 {
            rect.width - 2
        } else {
            0
        };
        let inner_h = if rect.height >= 2 {
            rect.height - 2
        } else {
            0
        };
        if inner_w == 0 || inner_h == 0 {
            return None;
        }
        if column < inner_x || row < inner_y {
            return None;
        }
        let local_x = column - inner_x;
        let local_y = row - inner_y;
        if local_x >= inner_w || local_y >= inner_h {
            return None;
        }
        Some((self.response_scroll as usize + local_y as usize, local_x as usize))
    }

    /// Starts a selection at the mouse position.
    pub fn begin_response_selection_from_mouse(&mut self, column: u16, row: u16)
        ensures
            final(self)@ == old(self)@.after_begin_selection(column, row),
    {
        let position = match self.response_position_from_mouse(column, row) {
            Some(p) => p,
            None => return,
        };
        self.response_selection_start = Some(position);
        self.response_selection_end = Some(position);
        self.response_selecting = true;
    }

    /// Extends the selection to the mouse position while selecting.
    pub fn update_response_selection_from_mouse(&mut self, column: u16, row: u16)
        ensures
            final(self)@ == old(self)@.after_update_selection(column, row),
    {
        if !self.response_selecting {
            return;
        }
        let position = match self.response_position_from_mouse(column, row) {
            Some(p) => p,
            None => return,
        };
        self.response_selection_end = Some(position);
    }

    /// Ends selecting; an empty selection is dropped.
    pub fn finish_response_selection(&mut self)
        ensures
            final(self)@ == old(self)@.after_finish_selection(),
    {
        self.response_selecting = false;
        if same_position(self.response_selection_start, self.response_selection_end) {
            self.clear_response_selection();
        }
    }

    /// Drops the selection.
    pub fn clear_response_selection(&mut self)
        ensures
            final(self)@ == old(self)@.without_selection(),
    {
        self.response_selection_start = None;
        self.response_selection_end = None;
        self.response_selecting = false;
    }

    /// The selection from its earlier to its later end, when it is not empty.
    pub fn response_selection_range(&self) -> (r: Option<((usize, usize), (usize, usize))>)
        ensures
            r == self@.selection_range(),
    {
        let start = match self.response_selection_start {
            Some(s) => s,
            None => return None,
        };
        let end = match self.response_selection_end {
            Some(e) => e,
            None => return None,
        };
        if start.0 == end.0 && start.1 == end.1 {
            return None;
        }
        if start.0 < end.0 || (start.0 == end.0 && start.1 <= end.1) {
            Some((start, end))
        } else {
            Some((end, start))
        }
    }

    /// The current page wrapped to the pane width.
    pub fn wrapped_page_lines(&self) -> (out: Vec<String>)
        requires
            self@.wf(),
        ensures
            out.deep_view() == self@.wrapped_rows(),
    {
        let text = self.current_page_text();
        wrap_text_lines(text.as_str(), self.response_wrap_width() as usize)
    }

    /// The selected text of the current page.
    fn selected_response_text(&self) -> (r: Option<String>)
        requires
            self@.wf(),
        ensures
            match r {
                Some(t) => self@.selection_content() == Some(t@),
                None => self@.selection_content() is None,
            },
    {
        let (start, end) = match self.response_selection_range() {
            Some(range) => range,
            None => return None,
        };
        let rows = self.wrapped_page_lines();
        selection_text(&rows, start.0, start.1, end.0, end.1)
    }

    /// Asks to copy the selection, or the current page when nothing is selected.
    pub fn copy_response_selection_or_page(&mut self) -> (r: Option<AppCommand>)
        requires
            old(self)@.wf(),
        ensures
            (final(self)@, command_view(r)) == old(self)@.after_copy(),
    {
        if char_count(self.last_response.as_str()) == 0 {
            self.set_timed_status(owned("Nothing to copy"), 3);
            return None;
        }
        match self.selected_response_text() {
            Some(text) => {
                if char_count(text.as_str()) > 0 {
                    return Some(
                        AppCommand::CopyText {
                            text,
                            success_message: owned("Selection copied!"),
                            clear_selection: true,
                        },
                    );
                }
            },
            None => {},
        }
        Some(
            AppCommand::CopyText {
                text: self.current_page_text(),
                success_message: owned("Current page copied!"),
                clear_selection: false,
            },
        )
    }

    /// Splits the response into pages anew and shows its first page.
    pub fn rebuild_pagination(&mut self)
        requires
            old(self)@.wf(),
        ensures
            final(self)@ == old(self)@.after_rebuild_pagination(),
            final(self)@.wf(),
    {
        self.response_scroll = 0;
        self.response_page = 0;
        self.wrap_metrics = None;
        self.clear_response_selection();
        if char_count(self.last_response.as_str()) == 0 {
            self.paginated_response = None;
        } else {
            let pages = PaginatedResponse::from_text(self.last_response.as_str(), DEFAULT_PAGE_SIZE);
            self.paginated_response = Some(pages);
        }
    }

    /// Moves to next response page when available.
    pub fn next_response_page(&mut self)
        requires
            old(self)@.wf(),
        ensures
            final(self)@ == old(self)@.after_next_page(),
    {
        let has_next = match &self.paginated_response {
            Some(pag) => pag.total_pages > 0 && self.response_page < pag.total_pages - 1,
            None => false,
        };
        if has_next {
            self.response_page = self.response_page + 1;
            self.response_scroll = 0;
            self.wrap_metrics = None;
            self.clear_response_selection();
        }
    }

    /// Moves to previous response page when available.
    pub fn prev_response_page(&mut self)
        ensures
            final(self)@ == old(self)@.after_prev_page(),
    {
        if self.response_page > 0 {
            self.response_page = self.response_page - 1;
            self.response_scroll = 0;
            self.wrap_metrics = None;
            self.clear_response_selection();
        }
    }

    /// Jumps response scroll to start.
    pub fn jump_response_start(&mut self)
        ensures
            final(self)@ == (AppView { response_scroll: 0, ..old(self)@ }),
    {
        self.response_scroll = 0;
    }

    /// Jumps response scroll to end of current page.
    pub fn jump_response_end(&mut self)
        requires
            old(self)@.wf(),
        ensures
            final(self)@ == old(self)@.after_jump_end(),
    {
        let line_count = self.current_page_wrapped_line_count();
        let visible = self.visible_rows();
        self.response_scroll = if line_count >= visible {
            line_count - visible
        } else {
            0
        };
    }

    /// Clears request form and response state.
    pub fn purge_data(&mut self)
        requires
            old(self)@.wf(),
        ensures
            final(self)@ == old(self)@.after_purge(),
    {
        let sel = self.selected_method;
        let ghost forms0 = self.request_forms@;
        self.request_forms[sel].reset_from_specs(self.methods[sel].fields.as_slice());
        assert(self.request_forms@.map_values(|f: FormState| f@) =~= forms0.map_values(
            |f: FormState| f@,
        ).update(sel as int, form_of_specs(self.methods@[sel as int].fields@)));
        let ghost errs0 = self.method_errors@;
        self.method_errors[sel].clear();
        assert(self.method_errors@.map_values(|m: ErrorMap| m@) =~= errs0.map_values(
            |m: ErrorMap| m@,
        ).update(sel as int, Map::empty()));

        self.last_response = String::new();
        self.response_scroll = 0;
        self.response_page = 0;
        self.paginated_response = None;
        self.wrap_metrics = None;
        self.clear_response_search();
        self.clear_response_selection();

        self.set_timed_status(owned("Data cleared!"), 3);
    }

    /// Clears the response search state entirely.
    pub fn clear_response_search(&mut self)
        ensures
            final(self)@ == old(self)@.without_search(),
    {
        self.response_search_query = String::new();
        self.response_search_cursor = 0;
        self.response_search_matches = Vec::new();
        self.response_search_current = 0;
    }

    /// Recalculates search matches from the current query and current page text.
    pub fn update_response_search_matches(&mut self)
        requires
            old(self)@.wf(),
        ensures
            final(self)@ == old(self)@.after_search_update(),
    {
        self.search_last_changed = Some(clock_now());
        self.recalculate_search_matches();
    }

    /// Performs the actual search match calculation on the current page.
    fn recalculate_search_matches(&mut self)
        requires
            old(self)@.wf(),
        ensures
            final(self)@ == (AppView {
                response_search_matches: old(self)@.search_matches(),
                response_search_current: 0,
                ..old(self)@
            }),
    {
        let mut matches: Vec<usize> = Vec::new();
        self.response_search_current = 0;
        if char_count(self.response_search_query.as_str()) == 0 || char_count(
            self.last_response.as_str(),
        ) == 0 {
            self.response_search_matches = matches;
            return;
        }
        let page_text = self.current_page_text();
        let query = to_lowercase(self.response_search_query.as_str());
        let query_chars = chars_of(query.as_str());
        let patterns = parse_alternatives(&query_chars);
        let page_lines = lines(page_text.as_str());
        let ghost lv = page_lines.deep_view();
        let mut i: usize = 0;
        while i < page_lines.len()
            invariant
                lv == page_lines.deep_view(),
                0 <= i <= page_lines.len(),
                query_chars@ == unicode_lowercase(self.response_search_query@),
                views(patterns@) == alternatives(query_chars@),
                matches@ == match_indices(lv, query_chars@, i as nat),
            decreases page_lines.len() - i,
        {
            let line = to_lowercase(page_lines[i].as_str());
            let line_chars = chars_of(line.as_str());
            if finds_any(&patterns, &line_chars) {
                matches.push(i);
            }
            assert(matches@ =~= match_indices(lv, query_chars@, (i + 1) as nat));
            i += 1;
        }
        self.response_search_matches = matches;
    }

    /// Scrolls to the current search match so it is visible.
    pub fn scroll_to_current_match(&mut self)
        ensures
            final(self)@ == old(self)@.after_scroll_to_match(),
    {
        if self.response_search_current < self.response_search_matches.len() {
            let line = self.response_search_matches[self.response_search_current];
            self.response_scroll = line as u16;
        }
    }

    /// Advances to the next search match, wrapping around.
    pub fn next_search_match(&mut self)
        ensures
            final(self)@ == old(self)@.after_next_match(),
    {
        let n = self.response_search_matches.len();
        if n == 0 {
            return;
        }
        let cur = self.response_search_current;
        self.response_search_current = (cur % n + 1) % n;
        proof {
            vstd::arithmetic::div_mod::lemma_add_mod_noop_right(1, cur as int, n as int);
        }
        self.scroll_to_current_match();
    }

    /// Moves to the previous search match, wrapping around.
    pub fn prev_search_match(&mut self)
        ensures
            final(self)@ == old(self)@.after_prev_match(),
    {
        let n = self.response_search_matches.len();
        if n == 0 {
            return;
        }
        if self.response_search_current == 0 {
            self.response_search_current = n - 1;
        } else {
            self.response_search_current = self.response_search_current - 1;
        }
        self.scroll_to_current_match();
    }

    /// Returns true when the response search box should be visible.
    pub fn is_response_search_visible(&self) -> (b: bool)
        ensures
            b == self@.search_visible(),
    {
        match self.zoomed_pane {
            Some(FocusPane::Response) => true,
            _ => false,
        }
    }

    /// Returns true when the search box should be interactive (response has content).
    pub fn is_response_search_enabled(&self) -> (b: bool)
        ensures
            b == self@.search_enabled(),
    {
        self.is_response_search_visible() && char_count(self.last_response.as_str()) > 0
    }
}

/// Whether two optional positions are equal.
fn same_position(a: Option<(usize, usize)>, b: Option<(usize, usize)>) -> (r: bool)
    ensures
        r == (a == b),
{
    match (a, b) {
        (Some(x), Some(y)) => x.0 == y.0 && x.1 == y.1,
        (None, None) => true,
        _ => false,
    }
}

/// Wrapped rows of `ls[lo..hi]` at `wrap` characters, clipped to `usize::MAX`.
fn rows_in(ls: &Vec<String>, lo: usize, hi: usize, wrap: usize) -> (total: usize)
    requires
        lo <= hi <= ls.len(),
        wrap > 0,
    ensures
        total == (if total_rows(ls.deep_view().subrange(lo as int, hi as int), wrap as nat)
            < usize::MAX {
            total_rows(ls.deep_view().subrange(lo as int, hi as int), wrap as nat)
        } else {
            usize::MAX as nat
        }),
{
    let ghost all = ls.deep_view();
    let mut total: usize = 0;
    let mut i = lo;
    while i < hi
        invariant
            lo <= i <= hi <= ls.len(),
            all == ls.deep_view(),
            wrap > 0,
            total == (if total_rows(all.subrange(lo as int, i as int), wrap as nat) < usize::MAX {
                total_rows(all.subrange(lo as int, i as int), wrap as nat)
            } else {
                usize::MAX as nat
            }),
        decreases hi - i,
    {
        let len = char_count(ls[i].as_str());
        proof {
            if len > 0 {
                lemma_rows(len as nat, wrap as nat);
            }
        }
        let rows = if len == 0 {
            1
        } else {
            len / wrap + if len % wrap == 0 {
                0
            } else {
                1
            }
        };
        proof {
            assert(all.subrange(lo as int, i + 1).drop_last() =~= all.subrange(lo as int, i as int));
        }
        total = total.saturating_add(rows);
        i += 1;
    }
    total
}

/// Ceiling division of a line length by the width.
proof fn lemma_rows(len: nat, width: nat)
    requires
        len > 0,
        width > 0,
    ensures
        len / width + (if len % width == 0 {
            0nat
        } else {
            1nat
        }) == row_count(len, width),
        len <= usize::MAX ==> (len / width + 1 <= usize::MAX || len % width == 0),
{
    assert(len == width * (len / width) + len % width) by (nonlinear_arith)
        requires
            width > 0,
    ;
    let q = len / width;
    let r = len % width;
    assert(0 <= r < width) by (nonlinear_arith)
        requires
            width > 0,
            r == len % width,
    ;
    if r == 0 {
        assert((len + width - 1) / (width as int) == q) by (nonlinear_arith)
            requires
                len == width * q,
                width > 0,
        ;
    } else {
        assert((len + width - 1) / (width as int) == q + 1) by (nonlinear_arith)
            requires
                len == width * q + r,
                0 < r < width,
        ;
        assert(q < len) by (nonlinear_arith)
            requires
                len == width * q + r,
                0 < r < width,
        ;
    }
}

/// The search finds exactly the matching lines, each once, in increasing order.
pub proof fn lemma_match_indices(lines: Seq<Seq<char>>, query_lower: Seq<char>, n: nat)
    requires
        n <= lines.len(),
        n <= usize::MAX,
    ensures
        forall|i: int, j: int|
            0 <= i < j < match_indices(lines, query_lower, n).len() ==> match_indices(
                lines,
                query_lower,
                n,
            )[i] < match_indices(lines, query_lower, n)[j],
        forall|i: int|
            0 <= i < match_indices(lines, query_lower, n).len() ==> {
                let m = #[trigger] match_indices(lines, query_lower, n)[i];
                m < n && line_matches(lines[m as int], query_lower)
            },
        forall|k: int|
            0 <= k < n && line_matches(#[trigger] lines[k], query_lower) ==> match_indices(
                lines,
                query_lower,
                n,
            ).contains(k as usize),
    decreases n,
{
    if n > 0 {
        let p = (n - 1) as nat;
        lemma_match_indices(lines, query_lower, p);
        let prev = match_indices(lines, query_lower, p);
        let cur = match_indices(lines, query_lower, n);
        assert(forall|i: int| 0 <= i < prev.len() ==> cur[i] == prev[i]);
        assert forall|i: int, j: int| 0 <= i < j < cur.len() implies cur[i] < cur[j] by {
            if j == prev.len() {
                assert(cur[j] == p);
                assert(prev[i] < p);
            }
        }
        assert forall|i: int| 0 <= i < cur.len() implies {
            let m = #[trigger] cur[i];
            m < n && line_matches(lines[m as int], query_lower)
        } by {
            if i == prev.len() {
                assert(cur[i] == p);
            } else {
                assert(cur[i] == prev[i]);
            }
        }
        assert forall|k: int|
            0 <= k < n && line_matches(#[trigger] lines[k], query_lower) implies cur.contains(
            k as usize,
        ) by {
            if k < p {
                let w = choose|w: int| 0 <= w < prev.len() && prev[w] == k as usize;
                assert(cur[w] == prev[w]);
            } else {
                assert(cur[prev.len() as int] == k as usize);
            }
        }
    }
}

/// Lines that lower-case alike, searched with queries that lower-case alike,
/// give the same matches.
proof fn lemma_match_indices_case(
    a: Seq<Seq<char>>,
    b: Seq<Seq<char>>,
    qa: Seq<char>,
    qb: Seq<char>,
    n: nat,
)
    requires
        n <= a.len(),
        a.len() == b.len(),
        unicode_lowercase(qa) == unicode_lowercase(qb),
        forall|i: int| 0 <= i < a.len() ==> unicode_lowercase(#[trigger] a[i]) == unicode_lowercase(b[i]),
    ensures
        match_indices(a, unicode_lowercase(qa), n) == match_indices(b, unicode_lowercase(qb), n),
    decreases n,
{
    if n > 0 {
        lemma_match_indices_case(a, b, qa, qb, (n - 1) as nat);
        assert(unicode_lowercase(a[n - 1]) == unicode_lowercase(b[n - 1]));
    }
}

/// Search ignores case: two states whose queries lower-case alike, and whose
/// current pages have lines that lower-case alike, have the same matches. A
/// query and its lower-cased form, or a page and its lower-cased form, are
/// searched alike.
pub proof fn lemma_search_ignores_case(s: AppView, t: AppView)
    requires
        s.response_search_query.len() > 0 && t.response_search_query.len() > 0,
        s.last_response.len() > 0 && t.last_response.len() > 0,
        unicode_lowercase(s.response_search_query) == unicode_lowercase(t.response_search_query),
        lines_of(s.page_text()).len() == lines_of(t.page_text()).len(),
        forall|i: int|
            0 <= i < lines_of(s.page_text()).len() ==> unicode_lowercase(#[trigger] lines_of(s.page_text())[i])
                == unicode_lowercase(lines_of(t.page_text())[i]),
    ensures
        s.search_matches() == t.search_matches(),
{
    let a = lines_of(s.page_text());
    let b = lines_of(t.page_text());
    lemma_match_indices_case(a, b, s.response_search_query, t.response_search_query, a.len());
}

/// Moving to the next search match and back returns to the same match.
pub proof fn lemma_next_prev_match(s: AppView)
    requires
        0 < s.response_search_matches.len() <= usize::MAX,
        s.response_search_current < s.response_search_matches.len(),
    ensures
        s.after_next_match().after_prev_match().response_search_current == s.response_search_current,
        s.after_prev_match().after_next_match().response_search_current == s.response_search_current,
{
    let n = s.response_search_matches.len() as int;
    let c = s.response_search_current as int;
    if c + 1 < n {
        vstd::arithmetic::div_mod::lemma_small_mod((c + 1) as nat, n as nat);
    } else {
        vstd::arithmetic::div_mod::lemma_mod_self_0(n);
    }
    if c > 0 {
        vstd::arithmetic::div_mod::lemma_small_mod(c as nat, n as nat);
    } else {
        vstd::arithmetic::div_mod::lemma_mod_self_0(n);
    }
}

/// Turning to the next page and back returns to the same page, at its top; at the
/// last page the next page key does nothing.
pub proof fn lemma_page_turns(s: AppView)
    requires
        s.paginated_response is Some,
    ensures
        s.response_page + 1 < s.paginated_response->0.total_pages ==> s.after_next_page().after_prev_page().response_page
            == s.response_page && s.after_next_page().after_prev_page().response_scroll == 0,
        s.response_page + 1 >= s.paginated_response->0.total_pages ==> s.after_next_page() == s,
        0 < s.response_page < s.paginated_response->0.total_pages ==> s.after_prev_page().after_next_page().response_page == s.response_page,
{
}

/// Purging clears the selected request form and the whole response, keeps the other
/// forms, and keeps the state consistent.
pub proof fn lemma_purge_clears(s: AppView, i: int)
    requires
        s.wf(),
        0 <= i < s.request_forms.len(),
    ensures
        ({
            let t = s.after_purge();
            &&& t.active_form() == form_of_specs(s.methods[s.selected_method as int].fields@)
            &&& t.last_response.len() == 0
            &&& t.paginated_response is None
            &&& t.response_search_query.len() == 0
            &&& t.response_selection_start is None
            &&& (i != s.selected_method ==> t.request_forms[i] == s.request_forms[i])
            &&& t.wf()
        }),
{
}
} // verus!
