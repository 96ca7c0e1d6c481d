//! Keys while a modal is open: scrolling, closing, and the settings modal's network
//! list.

use vstd::prelude::*;

use crate::app::features::events::{KeyCode, KeyEvent};
use crate::app::model::state::{command_view, sat_sub, App, AppView, CommandView};
use crate::app::model::types::{AppCommand, ModalState};
use crate::text::owned;

verus! {

impl AppView {
    /// The state with the modal closed and its scroll reset.
    pub open spec fn after_close_modal(self) -> AppView {
        AppView { modal: ModalState::Closed, modal_scroll: 0, ..self }
    }

    /// The state after a key while a modal is open.
    pub open spec fn after_modal_key(self, key: KeyEvent) -> (AppView, Option<CommandView>) {
        let settings = self.modal == ModalState::Settings;
        let editing = self.network_editor is Some;
        match key.code {
            KeyCode::Esc => if settings && editing {
                (self.after_cancel_editor(), None)
            } else {
                (self.after_close_modal(), None)
            },
            KeyCode::Char('q') => (self.after_close_modal(), None),
            KeyCode::Up | KeyCode::Char('k') => if settings && !editing {
                (self.after_prev_network(), None)
            } else if settings && editing {
                self.after_network_edit_key(key)
            } else {
                (AppView { modal_scroll: sat_sub(self.modal_scroll as int, 1) as u16, ..self }, None)
            },
            KeyCode::Down | KeyCode::Char('j') => if settings && !editing {
                (self.after_next_network(), None)
            } else if settings && editing {
                self.after_network_edit_key(key)
            } else if self.modal_scroll < self.modal_max_scroll {
                (AppView { modal_scroll: (self.modal_scroll + 1) as u16, ..self }, None)
            } else {
                (self, None)
            },
            KeyCode::Home => (AppView { modal_scroll: 0, ..self }, None),
            KeyCode::End => (AppView { modal_scroll: self.modal_max_scroll, ..self }, None),
            _ => if settings {
                self.after_settings_modal_key(key)
            } else {
                (self, None)
            },
        }
    }

    /// The state after a key in the settings modal's content: the editor takes it
    /// when open, else `a` adds, `e` edits and `d` deletes a network.
    pub open spec fn after_settings_modal_key(self, key: KeyEvent) -> (AppView, Option<CommandView>) {
        if self.network_editor is Some {
            self.after_network_edit_key(key)
        } else {
            match key.code {
                KeyCode::Char('a') => (self.after_start_editor(None), None),
                KeyCode::Char('e') => (self.after_start_editor(Some(self.selected_network)), None),
                KeyCode::Char('d') => self.after_delete_network(),
                _ => (self, None),
            }
        }
    }
}

impl App {
    /// Handles keys while a modal is open.
    pub(crate) fn handle_modal_key(&mut self, key: KeyEvent) -> (r: Option<AppCommand>)
        requires
            old(self)@.wf(),
            old(self)@.editor_room(),
        ensures
            (final(self)@, command_view(r)) == old(self)@.after_modal_key(key),
            final(self)@.wf(),
    {
        match key.code {
            KeyCode::Esc => {
                // Esc exits the inline editor first, then the modal on a second press
                if self.modal == ModalState::Settings && self.network_editor.is_some() {
                    self.network_editor = None;
                    self.set_timed_status(owned("Network edit canceled"), 5);
                    return None;
                }
                self.modal = ModalState::Closed;
                self.modal_scroll = 0;
                None
            },
            KeyCode::Char('q') => {
                self.modal = ModalState::Closed;
                self.modal_scroll = 0;
                None
            },
            KeyCode::Up | KeyCode::Char('k') => {
                if self.modal == ModalState::Settings && self.network_editor.is_none() {
                    self.select_prev_network();
                } else if self.modal == ModalState::Settings && self.network_editor.is_some() {
                    return self.handle_network_edit_key(key);
                } else {
                    self.modal_scroll = self.modal_scroll.saturating_sub(1);
                }
                None
            },
            KeyCode::Down | KeyCode::Char('j') => {
                if self.modal == ModalState::Settings && self.network_editor.is_none() {
                    self.select_next_network();
                } else if self.modal == ModalState::Settings && self.network_editor.is_some() {
                    return self.handle_network_edit_key(key);
                } else if self.modal_scroll < self.modal_max_scroll {
                    self.modal_scroll = self.modal_scroll.saturating_add(1);
                }
                None
            },
            KeyCode::Home => {
                self.modal_scroll = 0;
                None
            },
            KeyCode::End => {
                self.modal_scroll = self.modal_max_scroll;
                None
            },
            _ => {
                // Non navigation settings keys are handled by the settings action map
                if self.modal == ModalState::Settings {
                    self.handle_settings_modal_key(key)
                } else {
                    None
                }
            },
        }
    }

    /// Handles keys in the settings modal content.
    pub(crate) fn handle_settings_modal_key(&mut self, key: KeyEvent) -> (r: Option<AppCommand>)
        requires
            old(self)@.wf(),
            old(self)@.editor_room(),
        ensures
            (final(self)@, command_view(r)) == old(self)@.after_settings_modal_key(key),
            final(self)@.wf(),
    {
        if self.network_editor.is_some() {
            return self.handle_network_edit_key(key);
        }
        match key.code {
            KeyCode::Char('a') => {
                self.start_network_editor(None);
                None
            },
            KeyCode::Char('e') => {
                let index = self.selected_network;
                self.start_network_editor(Some(index));
                None
            },
            KeyCode::Char('d') => self.delete_network(),
            _ => None,
        }
    }
}

} // verus!
