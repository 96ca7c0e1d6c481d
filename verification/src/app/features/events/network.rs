//! Keys while the network editor is open.

use vstd::prelude::*;

use crate::app::features::events::{KeyCode, KeyEvent};
use crate::app::model::forms::{
    field_after_backspace, field_after_delete, field_after_insert, field_after_left,
    field_after_right, FormView,
};
use crate::app::model::state::{command_view, App, AppView, CommandView, EditorView};
use crate::app::model::types::AppCommand;
use crate::text::owned;

verus! {

/// The selected field of a form, when one is selected.
pub open spec fn current_field_of(f: FormView) -> crate::app::model::forms::FieldView {
    f.fields[f.selected as int]
}

impl AppView {
    /// The state with the network editor's form replaced, when the editor is open.
    pub open spec fn with_editor_form(self, form: FormView) -> AppView {
        match self.network_editor {
            Some(e) => AppView {
                network_editor: Some(EditorView { form, editing_index: e.editing_index }),
                ..self
            },
            None => self,
        }
    }

    /// The network editor's form, or an empty one when the editor is closed.
    pub open spec fn editor_form_now(self) -> FormView {
        match self.network_editor {
            Some(e) => e.form,
            None => FormView { fields: Seq::empty(), selected: 0, scroll: 0 },
        }
    }

    /// Whether the caret of the selected editor field can move past one more
    /// character.
    pub open spec fn editor_room(self) -> bool {
        match self.network_editor {
            Some(e) => e.form.has_current() ==> current_field_of(e.form).cursor < usize::MAX,
            None => true,
        }
    }

    /// The state with the network editor closed and the cancel reported.
    pub open spec fn after_cancel_editor(self) -> AppView {
        AppView { network_editor: None, ..self }.with_status("Network edit canceled"@, 5)
    }

    /// The state after a key while the network editor is open.
    pub open spec fn after_network_edit_key(self, key: KeyEvent) -> (AppView, Option<CommandView>) {
        let f = self.editor_form_now();
        let open = self.network_editor is Some;
        match key.code {
            KeyCode::Esc => (self.after_cancel_editor(), None),
            KeyCode::Up => (self.with_editor_form(f.after_select_prev()), None),
            KeyCode::Down => (self.with_editor_form(f.after_select_next()), None),
            KeyCode::Backspace => if open {
                (
                    self.with_editor_form(
                        f.with_current(field_after_backspace(current_field_of(f))),
                    ).after_refresh_network_errors(),
                    None,
                )
            } else {
                (self, None)
            },
            KeyCode::Delete => if open {
                (
                    self.with_editor_form(
                        f.with_current(field_after_delete(current_field_of(f))),
                    ).after_refresh_network_errors(),
                    None,
                )
            } else {
                (self, None)
            },
            KeyCode::Left => (
                self.with_editor_form(f.with_current(field_after_left(current_field_of(f)))),
                None,
            ),
            KeyCode::Right => (
                self.with_editor_form(f.with_current(field_after_right(current_field_of(f)))),
                None,
            ),
            KeyCode::Char(c) => if c == 's' && key.modifiers.control {
                self.after_save_editor()
            } else if open {
                (
                    self.with_editor_form(
                        f.with_current(field_after_insert(current_field_of(f), c)),
                    ).after_refresh_network_errors(),
                    None,
                )
            } else {
                (self, None)
            },
            _ => (self, None),
        }
    }
}

impl App {
    /// Handles key input while editing a network entry.
    pub(crate) fn handle_network_edit_key(&mut self, key: KeyEvent) -> (r: Option<AppCommand>)
        requires
            old(self)@.wf(),
            old(self)@.editor_room(),
        ensures
            (final(self)@, command_view(r)) == old(self)@.after_network_edit_key(key),
            final(self)@.wf(),
    {
        match key.code {
            KeyCode::Esc => {
                // Esc always abandons unsaved editor state
                self.network_editor = None;
                self.set_timed_status(owned("Network edit canceled"), 5);
                None
            },
            KeyCode::Up => {
                if let Some(mut editor) = self.network_editor.take() {
                    editor.form.select_prev();
                    self.network_editor = Some(editor);
                }
                None
            },
            KeyCode::Down => {
                if let Some(mut editor) = self.network_editor.take() {
                    editor.form.select_next();
                    self.network_editor = Some(editor);
                }
                None
            },
            KeyCode::Backspace => {
                if let Some(mut editor) = self.network_editor.take() {
                    editor.form.backspace();
                    self.network_editor = Some(editor);
                    self.refresh_network_errors();
                }
                None
            },
            KeyCode::Delete => {
                if let Some(mut editor) = self.network_editor.take() {
                    editor.form.delete_forward();
                    self.network_editor = Some(editor);
                    self.refresh_network_errors();
                }
                None
            },
            KeyCode::Left => {
                if let Some(mut editor) = self.network_editor.take() {
                    editor.form.cursor_left();
                    self.network_editor = Some(editor);
                }
                None
            },
            KeyCode::Right => {
                if let Some(mut editor) = self.network_editor.take() {
                    editor.form.cursor_right();
                    self.network_editor = Some(editor);
                }
                None
            },
            KeyCode::Char(c) => {
                if c == 's' && key.modifiers.control {
                    // Save shortcut is local to the editor and does not close the modal
                    return self.save_network_editor();
                }
                if let Some(mut editor) = self.network_editor.take() {
                    editor.form.insert_char(c);
                    self.network_editor = Some(editor);
                    self.refresh_network_errors();
                }
                None
            },
            _ => None,
        }
    }
}

} // verus!
