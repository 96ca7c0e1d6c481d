//! Where the terminal caret stands: in the focused request field, in the search
//! box, or in the network editor of the settings modal.

use vstd::prelude::*;

use crate::app::features::events::min_of;
use crate::app::model::forms::FieldView;
use crate::app::model::state::{sat_add, sat_sub, App, AppView};
use crate::app::model::types::{FocusPane, ModalState, Rect};
use crate::text::char_count;
use crate::ui::layout::{solved_parts, split_area, Constraint, Direction, MainLayout};

verus! {

/// `a + b` on cells, clamped to the largest coordinate.
pub open spec fn cell_add(a: u16, b: u16) -> u16 {
    sat_add(a as int, b as int, u16::MAX as int) as u16
}

/// `a - b` on cells, clamped at zero.
pub open spec fn cell_sub(a: u16, b: u16) -> u16 {
    sat_sub(a as int, b as int) as u16
}

/// The area inside a one cell border; no area when the rectangle is too small.
pub open spec fn inside_border(r: Rect) -> Rect {
    if r.width < 2 || r.height < 2 {
        Rect { x: 0, y: 0, width: 0, height: 0 }
    } else {
        Rect { x: cell_add(r.x, 1), y: cell_add(r.y, 1), width: (r.width - 2) as u16, height: (r.height - 2) as u16 }
    }
}

/// The area inside a one cell border, by ratatui's `Rect::inner`.
///
/// Trusted: ratatui's source computes exactly `inside_border` for a margin of one
/// cell on each side.
#[verifier::external_body]
pub(crate) fn inner_rect(r: Rect) -> (out: Rect)
    ensures
        out == inside_border(r),
{
    let outer = ratatui::layout::Rect { x: r.x, y: r.y, width: r.width, height: r.height };
    let inner = outer.inner(ratatui::layout::Margin { horizontal: 1, vertical: 1 });
    Rect { x: inner.x, y: inner.y, width: inner.width, height: inner.height }
}

/// The rules that part a length in three, the middle part `percent` of it and
/// the sides half the rest each.
pub open spec fn thirds_rules(percent: u16) -> Seq<Constraint> {
    let side = ((100 - percent) / 2) as u16;
    seq![Constraint::Percentage(side), Constraint::Percentage(percent), Constraint::Percentage(side)]
}

/// The rules that part a length in three around a middle of `percent`.
pub fn thirds_constraints(percent: u16) -> (r: Vec<Constraint>)
    requires
        percent <= 100,
    ensures
        r@ == thirds_rules(percent),
{
    let side = (100 - percent) / 2;
    let r = vec![Constraint::Percentage(side), Constraint::Percentage(percent), Constraint::Percentage(side)];
    assert(r@ =~= thirds_rules(percent));
    r
}

/// A centered rectangle of `area`: the middle part of a split by the thirds of
/// `percent_x` of the middle part of a split by the thirds of `percent_y`, each
/// split an answer the layout solver may give.
pub open spec fn centered_answer(percent_x: u16, percent_y: u16, area: Rect, r: Rect) -> bool {
    exists|vertical: Seq<Rect>, horizontal: Seq<Rect>|
        #[trigger] solved_parts(area, Direction::Vertical, thirds_rules(percent_y), vertical)
            && #[trigger] solved_parts(vertical[1], Direction::Horizontal, thirds_rules(percent_x), horizontal)
            && r == horizontal[1]
}

/// Builds a centered rectangle using percentage-based width and height: the
/// middle of the area's vertical thirds, then the middle of that row's
/// horizontal thirds.
pub fn centered_rect(percent_x: u16, percent_y: u16, area: Rect) -> (r: Rect)
    requires
        percent_x <= 100,
        percent_y <= 100,
    ensures
        centered_answer(percent_x, percent_y, area, r),
{
    let vertical = split_area(area, Direction::Vertical, &thirds_constraints(percent_y));
    let horizontal = split_area(vertical[1], Direction::Horizontal, &thirds_constraints(percent_x));
    assert(solved_parts(area, Direction::Vertical, thirds_rules(percent_y), vertical@));
    assert(solved_parts(vertical@[1], Direction::Horizontal, thirds_rules(percent_x), horizontal@));
    horizontal[1]
}

/// Column of the caret in a `label: value` row starting at `left`: past the
/// selection marker, the label and its colon, then the caret's offset in the value
/// (at most its length), kept left of `max_x`.
pub open spec fn caret_column(left: u16, label_len: nat, cursor: nat, value_len: nat, max_x: u16) -> u16 {
    let x = cell_add(
        cell_add(cell_add(cell_add(left, 2), label_len as u16), 2),
        min_of(cursor as int, value_len as int) as u16,
    );
    if x <= max_x {
        x
    } else {
        max_x
    }
}

/// Caret column of a field's row.
pub open spec fn field_caret_x(left: u16, f: FieldView, max_x: u16) -> u16 {
    caret_column(left, f.spec.label@.len(), f.cursor as nat, f.value.len(), max_x)
}

/// Caret in the focused request field, when that field is editable and on screen.
pub open spec fn request_caret(area: Rect, s: AppView) -> Option<(u16, u16)> {
    if s.selected_method >= s.request_forms.len() {
        None
    } else {
        let form = s.request_forms[s.selected_method as int];
        if form.selected >= form.fields.len() || !s.selected_editable() {
            None
        } else {
            let inner = inside_border(area);
            let show_detail = form.fields.len() > 0 && inner.height > 5;
            let list_height = if show_detail {
                cell_sub(inner.height, 3)
            } else {
                inner.height
            };
            let line = sat_sub(form.selected as int, form.scroll as int);
            if line >= list_height {
                None
            } else {
                let y = cell_add(inner.y, line as u16);
                let max_x = cell_add(inner.x, cell_sub(inner.width, 1));
                Some((field_caret_x(inner.x, form.fields[form.selected as int], max_x), y))
            }
        }
    }
}

/// Caret in the search box, after its `Search: ` label.
pub open spec fn search_caret(area: Rect, s: AppView) -> Option<(u16, u16)> {
    if area.width < 3 || area.height < 3 {
        None
    } else {
        let inner = inside_border(area);
        let x = cell_add(
            cell_add(inner.x, 8),
            min_of(s.response_search_cursor as int, s.response_search_query.len() as int) as u16,
        );
        let max_x = cell_add(inner.x, cell_sub(inner.width, 1));
        Some((if x <= max_x { x } else { max_x }, inner.y))
    }
}

/// Caret in the selected field of the network editor shown in `modal_area`.
pub open spec fn editor_caret(modal_area: Rect, s: AppView) -> Option<(u16, u16)> {
    match s.network_editor {
        None => None,
        Some(e) => if e.form.selected >= e.form.fields.len() {
            None
        } else {
            let inner = inside_border(modal_area);
            let content = Rect { height: cell_sub(inner.height, 2), ..inner };
            let line = sat_add(5, e.form.selected as int, usize::MAX as int);
            let y = cell_add(content.y, line as u16);
            let max_x = cell_add(content.x, cell_sub(content.width, 1));
            Some((field_caret_x(content.x, e.form.fields[e.form.selected as int], max_x), y))
        },
    }
}

/// Where the caret stands in a frame without the settings modal, if anywhere:
/// in the search box while the search takes typing, else in the focused request
/// field when no modal is open.
pub open spec fn pane_caret(s: AppView, layout: MainLayout) -> Option<(u16, u16)> {
    if s.search_enabled() {
        search_caret(layout.search, s)
    } else if s.modal != ModalState::Closed || s.focus != FocusPane::Request {
        None
    } else {
        request_caret(layout.request, s)
    }
}

/// Column of the caret in a `label: value` row.
fn caret_column_of(left: u16, label: &str, value: &str, cursor: usize, max_x: u16) -> (x: u16)
    ensures
        x == caret_column(left, label@.len(), cursor as nat, value@.len(), max_x),
{
    let mut x = left;
    x = x.saturating_add(2);
    x = x.saturating_add(char_count(label) as u16);
    x = x.saturating_add(2);
    let len = char_count(value);
    let shown = if cursor < len {
        cursor
    } else {
        len
    };
    x = x.saturating_add(shown as u16);
    if x <= max_x {
        x
    } else {
        max_x
    }
}

/// Computes caret position for the focused request form field.
pub fn request_form_caret(area: Rect, app: &App) -> (r: Option<(u16, u16)>)
    requires
        app@.wf(),
    ensures
        r == request_caret(area, app@),
{
    if app.selected_method >= app.request_forms.len() {
        return None;
    }
    let form = &app.request_forms[app.selected_method];
    if form.selected >= form.fields.len() {
        return None;
    }
    if !app.is_selected_request_editable() {
        return None;
    }
    let field = &form.fields[form.selected];
    let inner = inner_rect(area);
    let show_detail = form.fields.len() > 0 && inner.height > 5;
    let list_height = if show_detail {
        inner.height.saturating_sub(3)
    } else {
        inner.height
    };
    let line_on_screen = form.selected.saturating_sub(form.scroll);
    if line_on_screen >= list_height as usize {
        // Selected field is currently outside the visible viewport
        return None;
    }
    let y = inner.y.saturating_add(line_on_screen as u16);
    let max_x = inner.x.saturating_add(inner.width.saturating_sub(1));
    let x = caret_column_of(inner.x, field.spec.label, field.value.as_str(), field.cursor, max_x);
    Some((x, y))
}

/// Computes caret position inside the response search box.
pub fn response_search_caret(search_area: Rect, app: &App) -> (r: Option<(u16, u16)>)
    ensures
        r == search_caret(search_area, app@),
{
    if search_area.width < 3 || search_area.height < 3 {
        return None;
    }
    let inner = inner_rect(search_area);
    let mut x = inner.x;
    x = x.saturating_add(8);  // the label "Search: "
    let len = char_count(app.response_search_query.as_str());
    let shown = if app.response_search_cursor < len {
        app.response_search_cursor
    } else {
        len
    };
    x = x.saturating_add(shown as u16);
    let max_x = inner.x.saturating_add(inner.width.saturating_sub(1));
    Some((if x <= max_x { x } else { max_x }, inner.y))
}

/// Computes caret position for the network form in the settings modal shown in
/// `modal_area`.
pub fn editor_caret_in(modal_area: Rect, app: &App) -> (r: Option<(u16, u16)>)
    ensures
        r == editor_caret(modal_area, app@),
{
    let editor = match &app.network_editor {
        Some(editor) => editor,
        None => return None,
    };
    if editor.form.selected >= editor.form.fields.len() {
        return None;
    }
    let field = &editor.form.fields[editor.form.selected];
    let inner = inner_rect(modal_area);
    let content_area = Rect {
        x: inner.x,
        y: inner.y,
        width: inner.width,
        height: inner.height.saturating_sub(2),
    };
    let field_line_index = 5usize.saturating_add(editor.form.selected);
    let y = content_area.y.saturating_add(field_line_index as u16);
    let max_x = content_area.x.saturating_add(content_area.width.saturating_sub(1));
    let x = caret_column_of(content_area.x, field.spec.label, field.value.as_str(), field.cursor, max_x);
    Some((x, y))
}

/// Computes caret position for the settings modal's network form, the modal
/// centered in the frame.
pub fn settings_editor_caret(frame_area: Rect, app: &App) -> (r: Option<(u16, u16)>)
    ensures
        exists|modal_area: Rect|
            centered_answer(60, 70, frame_area, modal_area) && r == #[trigger] editor_caret(modal_area, app@),
{
    let area = centered_rect(60, 70, frame_area);
    editor_caret_in(area, app)
}

/// Resolves the terminal cursor position for the current UI state.
pub fn caret_position(frame_area: Rect, app: &App, layout: &MainLayout) -> (r: Option<(u16, u16)>)
    requires
        app@.wf(),
    ensures
        app@.modal == ModalState::Settings ==> exists|modal_area: Rect|
            centered_answer(60, 70, frame_area, modal_area) && r == #[trigger] editor_caret(
                modal_area,
                app@,
            ),
        app@.modal != ModalState::Settings ==> r == pane_caret(app@, *layout),
{
    if app.modal == ModalState::Settings {
        return settings_editor_caret(frame_area, app);
    }
    let r = if app.is_response_search_enabled() {
        response_search_caret(layout.search, app)
    } else if app.modal != ModalState::Closed || app.focus != FocusPane::Request {
        None
    } else {
        request_form_caret(layout.request, app)
    };
    r
}

} // verus!
