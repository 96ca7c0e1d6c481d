//! Pane layout: header and footer bands, and the methods, request and response
//! panes side by side or stacked on narrow terminals.

use vstd::prelude::*;

use ratatui::layout::{Constraint as Rule, Direction as Axis, Layout, Rect as Area};

use crate::app::model::state::App;
use crate::app::model::types::{FocusPane, Rect, UiRegions};

verus! {

/// Width threshold below which header/footer stack vertically.
pub const COMPACT_THRESHOLD: u16 = 80;

/// Width threshold below which the panes stack vertically.
pub const NARROW_THRESHOLD: u16 = 110;

/// A size rule for one area of a layout split.
#[derive(Debug, Clone, Copy, PartialEq, Eq, Structural)]
pub enum Constraint {
    /// Exactly this many cells
    Length(u16),
    /// At least this many cells
    Min(u16),
    /// A share of the space left, by weight
    Fill(u16),
    /// This percentage of the space
    Percentage(u16),
}

/// The axis along which a layout splits an area.
#[derive(Debug, Clone, Copy, PartialEq, Eq, Structural)]
pub enum Direction {
    Horizontal,
    Vertical,
}

/// Whether `parts` is an answer that ratatui's layout solver may give for
/// splitting `area` along `direction` by `rules`.
pub uninterp spec fn ratatui_answer(area: Rect, direction: Direction, rules: Seq<Constraint>, parts: Seq<Rect>) -> bool;

/// The column just past an area's right edge, as ratatui's `Rect::right` computes it.
pub open spec fn right_edge(area: Rect) -> int {
    if area.x + area.width <= u16::MAX {
        area.x + area.width
    } else {
        u16::MAX as int
    }
}

/// The row just past an area's bottom edge, as ratatui's `Rect::bottom` computes it.
pub open spec fn bottom_edge(area: Rect) -> int {
    if area.y + area.height <= u16::MAX {
        area.y + area.height
    } else {
        u16::MAX as int
    }
}

/// A part of a split of `area` along `direction`: it lies inside the area along
/// the axis, and across the axis it has the area's position and extent.
pub open spec fn part_within(area: Rect, direction: Direction, part: Rect) -> bool {
    match direction {
        Direction::Horizontal => {
            &&& part.y == area.y
            &&& part.height == area.height
            &&& area.x <= part.x
            &&& part.x + part.width <= right_edge(area)
        },
        Direction::Vertical => {
            &&& part.x == area.x
            &&& part.width == area.width
            &&& area.y <= part.y
            &&& part.y + part.height <= bottom_edge(area)
        },
    }
}

/// What holds of every answer of the solver: one part per rule, each inside the
/// area, and an answer the solver may give for these arguments.
pub open spec fn solved_parts(area: Rect, direction: Direction, rules: Seq<Constraint>, parts: Seq<Rect>) -> bool {
    &&& parts.len() == rules.len()
    &&& ratatui_answer(area, direction, rules, parts)
    &&& forall|i: int| 0 <= i < parts.len() ==> part_within(area, direction, #[trigger] parts[i])
}

/// Splits an area with ratatui's `Layout::split` (no margin, no spacing).
///
/// Trusted: the result holds one area per constraint, and it is an answer the
/// solver may give for these arguments (`ratatui_answer`). Every part lies inside
/// the area along the axis and spans it across the axis: the solver keeps every
/// position between the area's edges as a required constraint, and ratatui builds
/// each part from the area's cross position and extent. Which answer comes back
/// is left unsaid: ratatui documents that some constraint sets have no single
/// answer, and its solver breaks ties in an order that varies from one process
/// to the next. That the parts follow one another is left unsaid too: the solver
/// holds the gaps between parts at zero with a strong, not a required, constraint.
#[verifier::external_body]
pub(crate) fn split_area(area: Rect, direction: Direction, constraints: &Vec<Constraint>) -> (r: Vec<Rect>)
    ensures
        r.len() == constraints.len(),
        ratatui_answer(area, direction, constraints@, r@),
        forall|i: int| 0 <= i < r.len() ==> part_within(area, direction, #[trigger] r@[i]),
{
    let cs = constraints.iter().map(|c| match *c {
        Constraint::Length(n) => Rule::Length(n),
        Constraint::Min(n) => Rule::Min(n),
        Constraint::Fill(n) => Rule::Fill(n),
        Constraint::Percentage(n) => Rule::Percentage(n),
    });
    let axis = match direction {
        Direction::Horizontal => Axis::Horizontal,
        Direction::Vertical => Axis::Vertical,
    };
    let outer = Area { x: area.x, y: area.y, width: area.width, height: area.height };
    let parts = Layout::default().direction(axis).constraints(cs).split(outer);
    parts.iter().map(|p| Rect { x: p.x, y: p.y, width: p.width, height: p.height }).collect()
}

/// The rectangle with no area at the origin.
pub open spec fn zero_rect() -> Rect {
    Rect { x: 0, y: 0, width: 0, height: 0 }
}

impl Default for Rect {
    fn default() -> (r: Self)
        ensures
            r == zero_rect(),
    {
        Rect { x: 0, y: 0, width: 0, height: 0 }
    }
}

/// Content rows the header needs at a width, its border excluded.
pub open spec fn header_rows_at(width: u16) -> u16 {
    if width < COMPACT_THRESHOLD {
        3
    } else {
        1
    }
}

/// Content rows the footer needs at a width, its border excluded.
pub open spec fn footer_rows_at(width: u16) -> u16 {
    if width < COMPACT_THRESHOLD {
        2
    } else {
        1
    }
}

/// Returns how many content rows the header needs (excluding its border).
pub fn header_rows(width: u16) -> (r: u16)
    ensures
        r == header_rows_at(width),
{
    if width < COMPACT_THRESHOLD {
        3  // title + up to 2 wrapped status lines

    } else {
        1  // single content row (borders provide spacing)

    }
}

/// Returns how many content rows the footer needs (excluding its border).
pub fn footer_rows(width: u16) -> (r: u16)
    ensures
        r == footer_rows_at(width),
{
    if width < COMPACT_THRESHOLD {
        2
    } else {
        1
    }
}

/// Screen areas of one frame.
#[derive(Debug, Clone, Copy, PartialEq, Eq, Structural)]
pub struct MainLayout {
    pub header: Rect,
    pub footer: Rect,
    /// Full content area between header and footer (used for fullscreen panes)
    pub body: Rect,
    pub methods: Rect,
    pub request: Rect,
    pub response: Rect,
    /// Area for the response search box (only set in fullscreen Response mode)
    pub search: Rect,
}

/// Weights of the request and response panes: the focused one gets three shares.
pub open spec fn pane_weights(focus: FocusPane) -> (u16, u16) {
    match focus {
        FocusPane::Request => (3, 1),
        FocusPane::Response => (1, 3),
        FocusPane::Methods => (1, 1),
    }
}

/// The rules of the header, body and footer bands at a width.
pub open spec fn band_rules(width: u16) -> Seq<Constraint> {
    seq![
        Constraint::Length((header_rows_at(width) + 2) as u16),
        Constraint::Min(0),
        Constraint::Length((footer_rows_at(width) + 2) as u16),
    ]
}

/// The rules that part the body from the search box under it.
pub open spec fn search_rules() -> Seq<Constraint> {
    seq![Constraint::Min(1), Constraint::Length(3)]
}

/// The rules of the body: on narrow terminals the three panes stacked, else the
/// methods column beside the right column.
pub open spec fn body_rules(width: u16, focus: FocusPane) -> Seq<Constraint> {
    let (rw, sw) = pane_weights(focus);
    if width < NARROW_THRESHOLD {
        seq![Constraint::Min(6), Constraint::Fill(rw), Constraint::Fill(sw)]
    } else {
        seq![Constraint::Percentage(30), Constraint::Percentage(70)]
    }
}

/// The rules of the right column: request over response.
pub open spec fn right_rules(focus: FocusPane) -> Seq<Constraint> {
    let (rw, sw) = pane_weights(focus);
    seq![Constraint::Fill(rw), Constraint::Fill(sw)]
}

/// How many areas each split of a frame holds: three bands, two search parts, the
/// body's parts, and two areas in the right column.
pub open spec fn split_shapes(
    width: u16,
    bands: Seq<Rect>,
    search_parts: Seq<Rect>,
    body_parts: Seq<Rect>,
    right_parts: Seq<Rect>,
) -> bool {
    &&& bands.len() == 3
    &&& search_parts.len() == 2
    &&& body_parts.len() == (if width < NARROW_THRESHOLD { 3nat } else { 2nat })
    &&& right_parts.len() == 2
}

/// The layout of a frame assembled from the areas of its splits: header and
/// footer are the outer bands; the body is the middle band, less the search box
/// while the search shows; the panes are the stacked body parts on narrow
/// terminals, else the left body part and the two parts of the right column.
pub open spec fn layout_from(
    width: u16,
    search_visible: bool,
    bands: Seq<Rect>,
    search_parts: Seq<Rect>,
    body_parts: Seq<Rect>,
    right_parts: Seq<Rect>,
) -> MainLayout {
    let narrow = width < NARROW_THRESHOLD;
    MainLayout {
        header: bands[0],
        footer: bands[2],
        body: if search_visible {
            search_parts[0]
        } else {
            bands[1]
        },
        methods: body_parts[0],
        request: if narrow {
            body_parts[1]
        } else {
            right_parts[0]
        },
        response: if narrow {
            body_parts[2]
        } else {
            right_parts[1]
        },
        search: if search_visible {
            search_parts[1]
        } else {
            zero_rect()
        },
    }
}

/// The axis along which the body parts: stacked on narrow terminals, side by
/// side else.
pub open spec fn body_axis(width: u16) -> Direction {
    if width < NARROW_THRESHOLD {
        Direction::Vertical
    } else {
        Direction::Horizontal
    }
}

/// The splits of a frame of `area`, each an answer of the solver to its rules:
/// the bands of the area; the search part of the body while the search shows;
/// the body's parts; and, on wide terminals, the right column's parts.
pub open spec fn frame_splits(
    area: Rect,
    focus: FocusPane,
    search_visible: bool,
    bands: Seq<Rect>,
    search_parts: Seq<Rect>,
    body_parts: Seq<Rect>,
    right_parts: Seq<Rect>,
) -> bool {
    let w = area.width;
    &&& split_shapes(w, bands, search_parts, body_parts, right_parts)
    &&& solved_parts(area, Direction::Vertical, band_rules(w), bands)
    &&& search_visible ==> solved_parts(bands[1], Direction::Vertical, search_rules(), search_parts)
    &&& solved_parts(bands[1], body_axis(w), body_rules(w, focus), body_parts)
    &&& w >= NARROW_THRESHOLD ==> solved_parts(body_parts[1], Direction::Vertical, right_rules(focus), right_parts)
}

/// A frame's layout: assembled, as `layout_from` says, from splits of the frame
/// that the solver may give for the frame's rules.
pub open spec fn solved_layout(area: Rect, focus: FocusPane, search_visible: bool, r: MainLayout) -> bool {
    exists|bands: Seq<Rect>, search_parts: Seq<Rect>, body_parts: Seq<Rect>, right_parts: Seq<Rect>|
        #[trigger] frame_splits(area, focus, search_visible, bands, search_parts, body_parts, right_parts)
            && r == layout_from(area.width, search_visible, bands, search_parts, body_parts, right_parts)
}

/// The pane regions of a frame for mouse hit testing: a fullscreen pane covers
/// the whole body.
pub open spec fn regions_of(layout: MainLayout, zoomed: Option<FocusPane>) -> UiRegions {
    let base = UiRegions { methods: layout.methods, request: layout.request, response: layout.response };
    match zoomed {
        Some(FocusPane::Request) => UiRegions { request: layout.body, ..base },
        Some(FocusPane::Response) => UiRegions { response: layout.body, ..base },
        _ => base,
    }
}

/// The rules of the header, body and footer bands at a width.
pub fn band_constraints(width: u16) -> (r: Vec<Constraint>)
    ensures
        r@ == band_rules(width),
{
    let header_height = header_rows(width) + 2;  // +2 for top+bottom border
    let footer_height = footer_rows(width) + 2;  // +2 for top+bottom border
    let r = vec![Constraint::Length(header_height), Constraint::Min(0), Constraint::Length(footer_height)];
    assert(r@ =~= band_rules(width));
    r
}

/// The weights of the request and response panes for a focus.
pub fn pane_weights_for(focus: FocusPane) -> (r: (u16, u16))
    ensures
        r == pane_weights(focus),
{
    match focus {
        FocusPane::Request => (3u16, 1u16),
        FocusPane::Response => (1u16, 3u16),
        FocusPane::Methods => (1u16, 1u16),
    }
}

/// The rules of the body at a width for a focus.
pub fn body_constraints(width: u16, focus: FocusPane) -> (r: Vec<Constraint>)
    ensures
        r@ == body_rules(width, focus),
{
    let (request_weight, response_weight) = pane_weights_for(focus);
    let r = if width < NARROW_THRESHOLD {
        vec![Constraint::Min(6), Constraint::Fill(request_weight), Constraint::Fill(response_weight)]
    } else {
        vec![Constraint::Percentage(30), Constraint::Percentage(70)]
    };
    assert(r@ =~= body_rules(width, focus));
    r
}

/// The rules of the right column for a focus.
pub fn right_constraints(focus: FocusPane) -> (r: Vec<Constraint>)
    ensures
        r@ == right_rules(focus),
{
    let (request_weight, response_weight) = pane_weights_for(focus);
    let r = vec![Constraint::Fill(request_weight), Constraint::Fill(response_weight)];
    assert(r@ =~= right_rules(focus));
    r
}

impl MainLayout {
    /// Assembles a frame's layout from the areas of its splits.
    pub fn from_splits(
        width: u16,
        search_visible: bool,
        bands: &Vec<Rect>,
        search_parts: &Vec<Rect>,
        body_parts: &Vec<Rect>,
        right_parts: &Vec<Rect>,
    ) -> (r: Self)
        requires
            split_shapes(width, bands@, search_parts@, body_parts@, right_parts@),
        ensures
            r == layout_from(width, search_visible, bands@, search_parts@, body_parts@, right_parts@),
    {
        let (body, search) = if search_visible {
            (search_parts[0], search_parts[1])
        } else {
            (bands[1], Rect::default())
        };
        // Narrow layout: stack panes vertically
        if width < NARROW_THRESHOLD {
            return MainLayout {
                header: bands[0],
                footer: bands[2],
                body,
                methods: body_parts[0],
                request: body_parts[1],
                response: body_parts[2],
                search,
            };
        }
        // Wide layout: methods on left, request + response stacked on right
        MainLayout {
            header: bands[0],
            footer: bands[2],
            body,
            methods: body_parts[0],
            request: right_parts[0],
            response: right_parts[1],
            search,
        }
    }

    /// Lays out a frame of `area` for the application's current focus and search.
    pub fn new(area: Rect, app: &App) -> (r: Self)
        ensures
            solved_layout(area, app.focus, app@.search_visible(), r),
    {
        let bands = split_area(area, Direction::Vertical, &band_constraints(area.width));
        let body = bands[1];
        let search_visible = app.is_response_search_visible();
        // When Response is fullscreen, split body to reserve space for the search box
        let search_parts = if search_visible {
            let rules = vec![Constraint::Min(1), Constraint::Length(3)];
            assert(rules@ =~= search_rules());
            split_area(body, Direction::Vertical, &rules)
        } else {
            vec![Rect::default(), Rect::default()]
        };
        let narrow = area.width < NARROW_THRESHOLD;
        let axis = if narrow {
            Direction::Vertical
        } else {
            Direction::Horizontal
        };
        let body_parts = split_area(body, axis, &body_constraints(area.width, app.focus));
        let right_parts = if narrow {
            vec![Rect::default(), Rect::default()]
        } else {
            split_area(body_parts[1], Direction::Vertical, &right_constraints(app.focus))
        };
        let r = MainLayout::from_splits(area.width, search_visible, &bands, &search_parts, &body_parts, &right_parts);
        assert(frame_splits(area, app.focus, search_visible, bands@, search_parts@, body_parts@, right_parts@));
        r
    }

    /// The pane regions of this layout.
    pub fn to_regions(&self) -> (r: UiRegions)
        ensures
            r == (UiRegions { methods: self.methods, request: self.request, response: self.response }),
    {
        UiRegions { methods: self.methods, request: self.request, response: self.response }
    }

    /// The regions for mouse hit testing when `zoomed` fills the screen.
    pub fn frame_regions(&self, zoomed: Option<FocusPane>) -> (r: UiRegions)
        ensures
            r == regions_of(*self, zoomed),
    {
        let mut regions = self.to_regions();
        match zoomed {
            Some(FocusPane::Request) => regions.request = self.body,
            Some(FocusPane::Response) => regions.response = self.body,
            _ => {},
        }
        regions
    }
}

} // verus!
