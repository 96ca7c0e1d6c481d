//! Mouse handling: focus by clicking, wheel scrolling, and drag selection in the
//! response pane.

use vstd::prelude::*;

use crate::app::features::events::focus::{contains_point, point_in};
use crate::app::features::events::{MouseEvent, MouseEventKind};
use crate::app::model::state::{sat_sub, App, AppView};
use crate::app::model::types::{FocusPane, ModalState, UiRegions};

verus! {

impl AppView {
    /// Whether mouse input in fullscreen goes to the response pane.
    pub open spec fn zoom_targets_response(self) -> bool {
        self.zoomed_pane == Some(FocusPane::Response) || self.focus == FocusPane::Response
    }

    /// The wheel while a modal is open: the settings modal moves through its editor
    /// fields or its networks, other modals scroll.
    pub open spec fn after_modal_wheel(self, up: bool) -> AppView {
        if self.modal == ModalState::Settings {
            match self.network_editor {
                Some(e) => self.with_editor_form(
                    if up {
                        e.form.after_select_prev()
                    } else {
                        e.form.after_select_next()
                    },
                ),
                None => if up {
                    self.after_prev_network()
                } else {
                    self.after_next_network()
                },
            }
        } else if up {
            AppView { modal_scroll: sat_sub(self.modal_scroll as int, 1) as u16, ..self }
        } else if self.modal_scroll < self.modal_max_scroll {
            AppView { modal_scroll: (self.modal_scroll + 1) as u16, ..self }
        } else {
            self
        }
    }

    /// A mouse event in fullscreen.
    pub open spec fn after_zoomed_mouse(self, event: MouseEvent) -> AppView {
        let resp = self.zoom_targets_response();
        match event.kind {
            MouseEventKind::Down => if resp {
                self.after_begin_selection(event.column, event.row)
            } else {
                self
            },
            MouseEventKind::Drag => if resp {
                self.after_update_selection(event.column, event.row)
            } else {
                self
            },
            MouseEventKind::Up => if resp {
                self.after_finish_selection()
            } else {
                self
            },
            MouseEventKind::ScrollUp => if resp {
                self.after_scroll(-1i16)
            } else if self.focus == FocusPane::Request {
                self.after_prev_field()
            } else {
                self
            },
            MouseEventKind::ScrollDown => if resp {
                self.after_scroll(1i16)
            } else if self.focus == FocusPane::Request {
                self.after_next_field()
            } else {
                self
            },
            _ => self,
        }
    }

    /// A click: the pane under the pointer takes focus; a selection is dropped
    /// outside the response pane.
    pub open spec fn after_click_focus(self, regions: UiRegions, column: u16, row: u16) -> AppView {
        let s = if point_in(regions.methods, column, row) {
            AppView { focus: FocusPane::Methods, ..self }
        } else if point_in(regions.request, column, row) {
            AppView { focus: FocusPane::Request, ..self }
        } else if point_in(regions.response, column, row) {
            AppView { focus: FocusPane::Response, ..self }
        } else {
            self
        };
        if s.focus != FocusPane::Response {
            s.without_selection()
        } else {
            s
        }
    }

    /// The wheel over a pane: it takes focus and moves its list or scrolls.
    pub open spec fn after_wheel(self, regions: UiRegions, column: u16, row: u16, delta: i16) -> AppView {
        if point_in(regions.methods, column, row) {
            let s = AppView { focus: FocusPane::Methods, ..self }.without_selection();
            if delta < 0 {
                s.after_prev_method()
            } else {
                s.after_next_method()
            }
        } else if point_in(regions.request, column, row) {
            let s = AppView { focus: FocusPane::Request, ..self }.without_selection();
            let t = if delta < 0 {
                s.after_prev_field()
            } else {
                s.after_next_field()
            };
            t.after_refresh_active()
        } else if point_in(regions.response, column, row) {
            AppView { focus: FocusPane::Response, ..self }.after_scroll(delta)
        } else {
            self
        }
    }

    /// Any mouse event: modals first, then fullscreen, then hit testing of the panes
    /// once the layout is known.
    pub open spec fn after_mouse(self, event: MouseEvent) -> AppView {
        if self.modal != ModalState::Closed {
            match event.kind {
                MouseEventKind::ScrollUp => self.after_modal_wheel(true),
                MouseEventKind::ScrollDown => self.after_modal_wheel(false),
                _ => self,
            }
        } else if self.zoomed_pane is Some {
            self.after_zoomed_mouse(event)
        } else {
            match self.ui_regions {
                None => self,
                Some(r) => match event.kind {
                    MouseEventKind::ScrollUp => self.after_wheel(r, event.column, event.row, -1i16),
                    MouseEventKind::ScrollDown => self.after_wheel(r, event.column, event.row, 1i16),
                    MouseEventKind::Down => {
                        let s = self.after_click_focus(r, event.column, event.row);
                        if point_in(r.response, event.column, event.row) {
                            s.after_begin_selection(event.column, event.row)
                        } else {
                            s
                        }
                    },
                    MouseEventKind::Drag => if point_in(r.response, event.column, event.row) {
                        self.after_update_selection(event.column, event.row)
                    } else {
                        self
                    },
                    MouseEventKind::Up => self.after_finish_selection(),
                    _ => self,
                },
            }
        }
    }
}

impl App {
    /// The wheel while a modal is open.
    fn handle_modal_wheel(&mut self, up: bool)
        requires
            old(self)@.wf(),
        ensures
            final(self)@ == old(self)@.after_modal_wheel(up),
            final(self)@.wf(),
    {
        if self.modal == ModalState::Settings {
            if let Some(mut editor) = self.network_editor.take() {
                if up {
                    editor.form.select_prev();
                } else {
                    editor.form.select_next();
                }
                self.network_editor = Some(editor);
            } else if up {
                self.select_prev_network();
            } else {
                self.select_next_network();
            }
        } else if up {
            self.modal_scroll = self.modal_scroll.saturating_sub(1);
        } else if self.modal_scroll < self.modal_max_scroll {
            self.modal_scroll = self.modal_scroll.saturating_add(1);
        }
    }

    /// A mouse event in fullscreen.
    fn handle_zoomed_mouse(&mut self, event: MouseEvent)
        requires
            old(self)@.wf(),
        ensures
            final(self)@ == old(self)@.after_zoomed_mouse(event),
            final(self)@.wf(),
    {
        let resp = self.zoomed_pane == Some(FocusPane::Response) || self.focus
            == FocusPane::Response;
        match event.kind {
            MouseEventKind::Down => {
                if resp {
                    self.begin_response_selection_from_mouse(event.column, event.row);
                }
            },
            MouseEventKind::Drag => {
                if resp {
                    self.update_response_selection_from_mouse(event.column, event.row);
                }
            },
            MouseEventKind::Up => {
                if resp {
                    self.finish_response_selection();
                }
            },
            MouseEventKind::ScrollUp => {
                if resp {
                    self.scroll_response(-1);
                } else if self.focus == FocusPane::Request {
                    self.select_prev_request_field();
                }
            },
            MouseEventKind::ScrollDown => {
                if resp {
                    self.scroll_response(1);
                } else if self.focus == FocusPane::Request {
                    self.select_next_request_field();
                }
            },
            _ => {},
        }
    }

    /// Handles mouse input for focus and scrolling.
    pub(crate) fn handle_mouse_inner(&mut self, event: MouseEvent)
        requires
            old(self)@.wf(),
        ensures
            final(self)@ == old(self)@.after_mouse(event),
            final(self)@.wf(),
    {
        // Modal mode remaps wheel input to modal content or settings list navigation
        if self.modal != ModalState::Closed {
            match event.kind {
                MouseEventKind::ScrollUp => self.handle_modal_wheel(true),
                MouseEventKind::ScrollDown => self.handle_modal_wheel(false),
                _ => {},
            }
            return ;
        }
        // Zoom keeps interactions scoped to the active fullscreen pane
        if self.zoomed_pane.is_some() {
            self.handle_zoomed_mouse(event);
            return ;
        }
        let regions = match self.ui_regions {
            Some(regions) => regions,
            None => return ,
        };
        // Normal layout uses region hit testing for focus and scroll routing
        match event.kind {
            MouseEventKind::ScrollUp => self.handle_scroll(regions, event.column, event.row, -1),
            MouseEventKind::ScrollDown => self.handle_scroll(regions, event.column, event.row, 1),
            MouseEventKind::Down => {
                self.handle_click_focus(regions, event.column, event.row);
                if contains_point(regions.response, event.column, event.row) {
                    self.begin_response_selection_from_mouse(event.column, event.row);
                }
            },
            MouseEventKind::Drag => {
                if contains_point(regions.response, event.column, event.row) {
                    self.update_response_selection_from_mouse(event.column, event.row);
                }
            },
            MouseEventKind::Up => {
                self.finish_response_selection();
            },
            _ => {},
        }
    }

    /// Updates focus from pointer position.
    fn handle_click_focus(&mut self, regions: UiRegions, column: u16, row: u16)
        requires
            old(self)@.wf(),
        ensures
            final(self)@ == old(self)@.after_click_focus(regions, column, row),
            final(self)@.wf(),
    {
        if contains_point(regions.methods, column, row) {
            self.focus = FocusPane::Methods;
        } else if contains_point(regions.request, column, row) {
            self.focus = FocusPane::Request;
        } else if contains_point(regions.response, column, row) {
            self.focus = FocusPane::Response;
        }
        if self.focus != FocusPane::Response {
            self.clear_response_selection();
        }
    }

    /// Applies wheel scroll in the focused region.
    fn handle_scroll(&mut self, regions: UiRegions, column: u16, row: u16, delta: i16)
        requires
            old(self)@.wf(),
        ensures
            final(self)@ == old(self)@.after_wheel(regions, column, row, delta),
            final(self)@.wf(),
    {
        if contains_point(regions.methods, column, row) {
            self.focus = FocusPane::Methods;
            self.clear_response_selection();
            if delta < 0 {
                self.select_prev_method();
            } else {
                self.select_next_method();
            }
        } else if contains_point(regions.request, column, row) {
            self.focus = FocusPane::Request;
            self.clear_response_selection();
            if delta < 0 {
                self.select_prev_request_field();
            } else {
                self.select_next_request_field();
            }
            self.refresh_active_errors();
        } else if contains_point(regions.response, column, row) {
            self.focus = FocusPane::Response;
            self.scroll_response(delta);
        }
    }
}

} // verus!
