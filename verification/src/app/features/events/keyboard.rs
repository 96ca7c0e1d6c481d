//! Keyboard handling outside modals: focus, paging, search, request editing and the
//! one-letter commands.

use vstd::prelude::*;

use crate::app::features::events::focus::{focus_after, focus_before, next_focus, prev_focus};
use crate::app::features::events::network::current_field_of;
use crate::app::features::events::{KeyCode, KeyEvent};
use crate::app::model::forms::{
    field_after_backspace, field_after_delete, field_after_insert, field_after_left,
    field_after_right, FieldView, FormView,
};
use crate::app::model::state::{command_view, App, AppView, CommandView};
use crate::app::model::types::{AppCommand, FocusPane, ModalState};
use crate::text::{concat, owned};

verus! {

impl AppView {
    /// Whether the response pane has focus or fills the screen.
    pub open spec fn response_in_view(self) -> bool {
        self.focus == FocusPane::Response || self.zoomed_pane == Some(FocusPane::Response)
    }

    /// Whether the selected field of the active form can be edited.
    pub open spec fn selected_editable(self) -> bool {
        self.field_enabled(self.active_form().selected as int)
    }

    /// The selected field of the active form.
    pub open spec fn active_field(self) -> FieldView {
        current_field_of(self.active_form())
    }

    /// The state with the active form replaced.
    pub open spec fn with_active_form(self, f: FormView) -> AppView {
        AppView { request_forms: self.request_forms.update(self.selected_method as int, f), ..self }
    }

    /// The state with the selected method's errors recomputed.
    pub open spec fn after_refresh_active(self) -> AppView {
        self.after_refresh_errors(self.selected_method as int)
    }

    /// The state after an edit was refused because the field needs an event type.
    pub open spec fn after_blocked_edit(self) -> AppView {
        self.with_status("Set Event type before editing this field"@, 3)
    }

    /// The state after the search query changed: matches recomputed, and scrolled
    /// to the first one when there is one.
    pub open spec fn after_search_edit(self) -> AppView {
        let s = self.after_search_update();
        if s.response_search_matches.len() > 0 {
            s.after_scroll_to_match()
        } else {
            s
        }
    }

    /// Whether every caret that a typed character moves can move once more.
    pub open spec fn typing_room(self) -> bool {
        &&& self.response_search_cursor < usize::MAX
        &&& (self.active_form().has_current() ==> self.active_field().cursor < usize::MAX)
        &&& self.editor_room()
    }

    /// Tab (`forward`) or back tab: cycles search matches while searching, is
    /// ignored in fullscreen, else moves the focus and drops a selection outside the
    /// response pane.
    pub open spec fn after_tab(self, forward: bool) -> AppView {
        if self.search_enabled() {
            if forward {
                self.after_next_match()
            } else {
                self.after_prev_match()
            }
        } else if self.zoomed_pane is Some {
            self
        } else {
            let s = AppView {
                focus: if forward {
                    focus_after(self.focus)
                } else {
                    focus_before(self.focus)
                },
                ..self
            };
            if s.focus != FocusPane::Response {
                s.without_selection()
            } else {
                s
            }
        }
    }

    /// Up: previous method, previous field or scroll up, then errors refreshed.
    pub open spec fn after_up(self) -> AppView {
        let s = match self.focus {
            FocusPane::Methods => self.after_prev_method(),
            FocusPane::Request => self.after_prev_field(),
            FocusPane::Response => self.after_scroll(-1i16),
        };
        s.after_refresh_active()
    }

    /// Down: next method, next field or scroll down, then errors refreshed.
    pub open spec fn after_down(self) -> AppView {
        let s = match self.focus {
            FocusPane::Methods => self.after_next_method(),
            FocusPane::Request => self.after_next_field(),
            FocusPane::Response => self.after_scroll(1i16),
        };
        s.after_refresh_active()
    }

    /// Left: search caret, field caret, or previous response page.
    pub open spec fn after_left_key(self) -> AppView {
        if self.search_enabled() {
            self.after_search_left()
        } else if self.focus == FocusPane::Request {
            if !self.selected_editable() {
                self.after_blocked_edit()
            } else {
                self.with_active_form(
                    self.active_form().with_current(field_after_left(self.active_field())),
                )
            }
        } else if self.response_in_view() {
            self.after_prev_page()
        } else {
            self
        }
    }

    /// Right: search caret, field caret, or next response page.
    pub open spec fn after_right_key(self) -> AppView {
        if self.search_enabled() {
            self.after_search_right()
        } else if self.focus == FocusPane::Request {
            if !self.selected_editable() {
                self.after_blocked_edit()
            } else {
                self.with_active_form(
                    self.active_form().with_current(field_after_right(self.active_field())),
                )
            }
        } else if self.response_in_view() {
            self.after_next_page()
        } else {
            self
        }
    }

    /// Esc: leaves fullscreen, dropping the search and the selection.
    pub open spec fn after_esc_key(self) -> AppView {
        let s = if self.zoomed_pane is Some {
            self.without_search().without_selection()
        } else {
            self
        };
        AppView { zoomed_pane: None, ..s }
    }

    /// Backspace: in the search query, else in the selected request field.
    pub open spec fn after_backspace_key(self) -> AppView {
        if self.search_enabled() {
            self.after_search_backspace().after_search_edit()
        } else if self.focus == FocusPane::Request {
            if !self.selected_editable() {
                self.after_blocked_edit()
            } else {
                self.with_active_form(
                    self.active_form().with_current(field_after_backspace(self.active_field())),
                ).after_refresh_active()
            }
        } else {
            self
        }
    }

    /// Delete: in the search query, else in the selected request field.
    pub open spec fn after_delete_key(self) -> AppView {
        if self.search_enabled() {
            self.after_search_delete().after_search_edit()
        } else if self.focus == FocusPane::Request {
            if !self.selected_editable() {
                self.after_blocked_edit()
            } else {
                self.with_active_form(
                    self.active_form().with_current(field_after_delete(self.active_field())),
                ).after_refresh_active()
            }
        } else {
            self
        }
    }

    /// Fullscreen toggle: leaving drops the search and the selection; entering is
    /// for the request and response panes.
    pub open spec fn after_toggle_fullscreen(self) -> AppView {
        if self.zoomed_pane is Some {
            AppView { zoomed_pane: None, ..self.without_search().without_selection() }
        } else if self.focus == FocusPane::Request || self.focus == FocusPane::Response {
            AppView { zoomed_pane: Some(self.focus), ..self }
        } else {
            self
        }
    }

    /// Purge: allowed in the request pane and in the response pane outside
    /// fullscreen.
    pub open spec fn after_purge_key(self) -> AppView {
        let allowed = match self.focus {
            FocusPane::Request => true,
            FocusPane::Response => self.zoomed_pane is None,
            _ => false,
        };
        if allowed {
            self.after_purge()
        } else {
            self
        }
    }

    /// Network cycling: the next network becomes active and selected, and the
    /// settings are to be saved.
    pub open spec fn after_cycle_network(self) -> (AppView, Option<CommandView>) {
        let nets = self.settings.networks;
        if nets.len() == 0 {
            (self, None)
        } else {
            let next = ((self.settings.active_network + 1) % (nets.len() as int)) as usize;
            (
                AppView {
                    settings: self.settings.after_set_active(next),
                    selected_network: next,
                    ..self
                },
                Some(
                    CommandView::SaveSettings {
                        success_message: "Switched to "@ + nets[next as int].name,
                    },
                ),
            )
        }
    }

    /// The state with a modal opened at its top.
    pub open spec fn with_modal(self, m: ModalState) -> AppView {
        AppView { modal: m, modal_scroll: 0, ..self }
    }

    /// Copying when the response is in view.
    pub open spec fn after_copy_key(self) -> (AppView, Option<CommandView>) {
        if self.response_in_view() {
            self.after_copy()
        } else {
            (self, None)
        }
    }

    /// One-letter commands outside field editing.
    pub open spec fn after_char_command(self, c: char) -> (AppView, Option<CommandView>) {
        if c == 'q' {
            (self, Some(CommandView::Quit))
        } else if c == 'r' {
            (self, Some(CommandView::SendRequest))
        } else if c == 'f' {
            (self.after_toggle_fullscreen(), None)
        } else if c == 'p' {
            (self.after_purge_key(), None)
        } else if c == 'c' {
            self.after_copy_key()
        } else if c == 'a' {
            (self.with_modal(ModalState::About), None)
        } else if c == 's' {
            (self.with_modal(ModalState::Settings), None)
        } else if c == 'i' && self.focus == FocusPane::Methods {
            (self.with_modal(ModalState::Info), None)
        } else if c == 'n' {
            self.after_cycle_network()
        } else {
            (self, None)
        }
    }

    /// A character key: copy, search typing, field typing, or a command.
    pub open spec fn after_char_key(self, c: char, control: bool) -> (AppView, Option<CommandView>) {
        if c == 'c' && control {
            self.after_copy_key()
        } else if c == 'c' && self.response_in_view() {
            self.after_copy()
        } else if self.search_enabled() && !control {
            (self.after_search_insert(c).after_search_edit(), None)
        } else if self.focus == FocusPane::Request && !control {
            if !self.selected_editable() {
                (self.after_blocked_edit(), None)
            } else {
                (
                    self.with_active_form(
                        self.active_form().with_current(field_after_insert(self.active_field(), c)),
                    ).after_refresh_active(),
                    None,
                )
            }
        } else {
            self.after_char_command(c)
        }
    }

    /// A key outside modals and the network editor.
    pub open spec fn after_pane_key(self, key: KeyEvent) -> (AppView, Option<CommandView>) {
        match key.code {
            KeyCode::Tab => (self.after_tab(true), None),
            KeyCode::BackTab => (self.after_tab(false), None),
            KeyCode::Up => (self.after_up(), None),
            KeyCode::Down => (self.after_down(), None),
            KeyCode::Left => (self.after_left_key(), None),
            KeyCode::Right => (self.after_right_key(), None),
            KeyCode::Home => if self.response_in_view() {
                (AppView { response_scroll: 0, ..self }, None)
            } else {
                (self, None)
            },
            KeyCode::End => if self.response_in_view() {
                (self.after_jump_end(), None)
            } else {
                (self, None)
            },
            KeyCode::Esc => (self.after_esc_key(), None),
            KeyCode::Backspace => (self.after_backspace_key(), None),
            KeyCode::Delete => (self.after_delete_key(), None),
            KeyCode::Char(c) => self.after_char_key(c, key.modifiers.control),
            _ => (self, None),
        }
    }

    /// Any key: an open modal takes it first, then an open network editor, then the
    /// panes.
    pub open spec fn after_key(self, key: KeyEvent) -> (AppView, Option<CommandView>) {
        if self.modal != ModalState::Closed {
            self.after_modal_key(key)
        } else if self.network_editor is Some {
            self.after_network_edit_key(key)
        } else {
            self.after_pane_key(key)
        }
    }
}

/// Tab handling.
fn handle_tab(app: &mut App, forward: bool)
    requires
        old(app)@.wf(),
    ensures
        final(app)@ == old(app)@.after_tab(forward),
        final(app)@.wf(),
{
    // While search is active, tab cycles matches instead of changing pane focus
    if app.is_response_search_enabled() {
        if forward {
            app.next_search_match();
        } else {
            app.prev_search_match();
        }
        return ;
    }
    if app.zoomed_pane.is_some() {
        return ;
    }
    if forward {
        app.focus = next_focus(app.focus);
    } else {
        app.focus = prev_focus(app.focus);
    }
    if app.focus != FocusPane::Response {
        app.clear_response_selection();
    }
}

/// Left arrow handling.
fn handle_left(app: &mut App)
    requires
        old(app)@.wf(),
    ensures
        final(app)@ == old(app)@.after_left_key(),
        final(app)@.wf(),
{
    if app.is_response_search_enabled() {
        app.move_search_cursor_left();
        return ;
    }
    if app.focus == FocusPane::Request {
        if !app.is_selected_request_editable() {
            app.set_timed_status(owned("Set Event type before editing this field"), 3);
            return ;
        }
        app.active_request_form_mut().cursor_left();
        return ;
    }
    if app.focus == FocusPane::Response || app.zoomed_pane == Some(FocusPane::Response) {
        app.prev_response_page();
    }
}

/// Right arrow handling.
fn handle_right(app: &mut App)
    requires
        old(app)@.wf(),
    ensures
        final(app)@ == old(app)@.after_right_key(),
        final(app)@.wf(),
{
    if app.is_response_search_enabled() {
        app.move_search_cursor_right();
        return ;
    }
    if app.focus == FocusPane::Request {
        if !app.is_selected_request_editable() {
            app.set_timed_status(owned("Set Event type before editing this field"), 3);
            return ;
        }
        app.active_request_form_mut().cursor_right();
        return ;
    }
    if app.focus == FocusPane::Response || app.zoomed_pane == Some(FocusPane::Response) {
        app.next_response_page();
    }
}

/// Recomputes search matches after the query changed.
fn refresh_search(app: &mut App)
    requires
        old(app)@.wf(),
    ensures
        final(app)@ == old(app)@.after_search_edit(),
        final(app)@.wf(),
{
    app.update_response_search_matches();
    if app.response_search_matches.len() > 0 {
        app.scroll_to_current_match();
    }
}

/// Backspace handling.
fn handle_backspace(app: &mut App)
    requires
        old(app)@.wf(),
    ensures
        final(app)@ == old(app)@.after_backspace_key(),
        final(app)@.wf(),
{
    if app.is_response_search_enabled() {
        app.search_backspace();
        refresh_search(app);
        return ;
    }
    if app.focus == FocusPane::Request {
        if !app.is_selected_request_editable() {
            app.set_timed_status(owned("Set Event type before editing this field"), 3);
            return ;
        }
        app.active_request_form_mut().backspace();
        app.refresh_active_errors();
    }
}

/// Delete handling.
fn handle_delete(app: &mut App)
    requires
        old(app)@.wf(),
    ensures
        final(app)@ == old(app)@.after_delete_key(),
        final(app)@.wf(),
{
    if app.is_response_search_enabled() {
        app.search_delete_forward();
        refresh_search(app);
        return ;
    }
    if app.focus == FocusPane::Request {
        if !app.is_selected_request_editable() {
            app.set_timed_status(owned("Set Event type before editing this field"), 3);
            return ;
        }
        app.active_request_form_mut().delete_forward();
        app.refresh_active_errors();
    }
}

/// Copies when the response is in view.
fn handle_copy(app: &mut App) -> (r: Option<AppCommand>)
    requires
        old(app)@.wf(),
    ensures
        (final(app)@, command_view(r)) == old(app)@.after_copy_key(),
        final(app)@.wf(),
{
    if app.focus == FocusPane::Response || app.zoomed_pane == Some(FocusPane::Response) {
        app.copy_response_selection_or_page()
    } else {
        None
    }
}

/// Character key handling.
fn handle_char(app: &mut App, c: char, control: bool) -> (r: Option<AppCommand>)
    requires
        old(app)@.wf(),
        old(app)@.typing_room(),
    ensures
        (final(app)@, command_view(r)) == old(app)@.after_char_key(c, control),
        final(app)@.wf(),
{
    if c == 'c' && control {
        return handle_copy(app);
    }
    // Plain c remains a quick copy gesture in response views
    if c == 'c' && !control && (app.focus == FocusPane::Response || app.zoomed_pane == Some(
        FocusPane::Response,
    )) {
        return app.copy_response_selection_or_page();
    }
    if app.is_response_search_enabled() && !control {
        app.insert_search_char(c);
        refresh_search(app);
        return None;
    }
    if app.focus == FocusPane::Request && !control {
        if !app.is_selected_request_editable() {
            app.set_timed_status(owned("Set Event type before editing this field"), 3);
            return None;
        }
        app.active_request_form_mut().insert_char(c);
        app.refresh_active_errors();
        return None;
    }
    handle_char_command(app, c)
}

/// Handles character shortcuts outside field editing.
fn handle_char_command(app: &mut App, c: char) -> (r: Option<AppCommand>)
    requires
        old(app)@.wf(),
    ensures
        (final(app)@, command_view(r)) == old(app)@.after_char_command(c),
        final(app)@.wf(),
{
    match c {
        'q' => Some(AppCommand::Quit),
        'r' => Some(AppCommand::SendRequest),
        'f' => {
            toggle_fullscreen(app);
            None
        },
        'p' => {
            handle_purge(app);
            None
        },
        'c' => handle_copy(app),
        'a' => {
            app.modal = ModalState::About;
            app.modal_scroll = 0;
            None
        },
        's' => {
            app.modal = ModalState::Settings;
            app.modal_scroll = 0;
            None
        },
        'i' if app.focus == FocusPane::Methods => {
            app.modal = ModalState::Info;
            app.modal_scroll = 0;
            None
        },
        'n' => cycle_network(app),
        _ => None,
    }
}

/// Clears active request data in allowed panes.
fn handle_purge(app: &mut App)
    requires
        old(app)@.wf(),
    ensures
        final(app)@ == old(app)@.after_purge_key(),
        final(app)@.wf(),
{
    let allowed = match app.focus {
        FocusPane::Request => true,
        FocusPane::Response => app.zoomed_pane.is_none(),
        _ => false,
    };
    if allowed {
        app.purge_data();
    }
}

/// Moves active network to next configured entry; asks to save the settings.
fn cycle_network(app: &mut App) -> (r: Option<AppCommand>)
    requires
        old(app)@.wf(),
    ensures
        (final(app)@, command_view(r)) == old(app)@.after_cycle_network(),
        final(app)@.wf(),
{
    let n = app.settings.networks.len();
    if n == 0 {
        return None;
    }
    let a = app.settings.active_network;
    let next = (a % n + 1) % n;
    proof {
        let ai = a as int;
        let ni = n as int;
        vstd::arithmetic::div_mod::lemma_add_mod_noop(ai, 1, ni);
        if ni > 1 {
            vstd::arithmetic::div_mod::lemma_small_mod(1, n as nat);
        }
        assert(next == (ai + 1) % ni);
    }
    app.settings.set_active_network(next);
    app.selected_network = next;
    let message = concat("Switched to ", app.settings.networks[next].name.as_str());
    Some(AppCommand::SaveSettings { success_message: message })
}

/// Toggles fullscreen for request and response panes.
fn toggle_fullscreen(app: &mut App)
    requires
        old(app)@.wf(),
    ensures
        final(app)@ == old(app)@.after_toggle_fullscreen(),
        final(app)@.wf(),
{
    if app.zoomed_pane.is_some() {
        app.clear_response_search();
        app.clear_response_selection();
        app.zoomed_pane = None;
    } else {
        match app.focus {
            FocusPane::Request | FocusPane::Response => {
                app.zoomed_pane = Some(app.focus);
            },
            _ => {},
        }
    }
}

/// Applies upward navigation for current focus.
fn handle_up(app: &mut App)
    requires
        old(app)@.wf(),
    ensures
        final(app)@ == old(app)@.after_up(),
        final(app)@.wf(),
{
    match app.focus {
        FocusPane::Methods => app.select_prev_method(),
        FocusPane::Request => app.select_prev_request_field(),
        FocusPane::Response => app.scroll_response(-1),
    }
    app.refresh_active_errors();
}

/// Applies downward navigation for current focus.
fn handle_down(app: &mut App)
    requires
        old(app)@.wf(),
    ensures
        final(app)@ == old(app)@.after_down(),
        final(app)@.wf(),
{
    match app.focus {
        FocusPane::Methods => app.select_next_method(),
        FocusPane::Request => app.select_next_request_field(),
        FocusPane::Response => app.scroll_response(1),
    }
    app.refresh_active_errors();
}

/// Routes a key: modal first, then the network editor, then the panes.
pub(crate) fn handle_key(app: &mut App, key: KeyEvent) -> (r: Option<AppCommand>)
    requires
        old(app)@.wf(),
        old(app)@.typing_room(),
    ensures
        (final(app)@, command_view(r)) == old(app)@.after_key(key),
        final(app)@.wf(),
{
    // Modal shortcuts win over all pane interactions
    if app.modal != ModalState::Closed {
        return app.handle_modal_key(key);
    }
    // Network editor captures input before global shortcuts
    if app.network_editor.is_some() {
        return app.handle_network_edit_key(key);
    }
    match key.code {
        KeyCode::Tab => {
            handle_tab(app, true);
            None
        },
        KeyCode::BackTab => {
            handle_tab(app, false);
            None
        },
        KeyCode::Up => {
            handle_up(app);
            None
        },
        KeyCode::Down => {
            handle_down(app);
            None
        },
        KeyCode::Left => {
            handle_left(app);
            None
        },
        KeyCode::Right => {
            handle_right(app);
            None
        },
        KeyCode::Home => {
            if app.focus == FocusPane::Response || app.zoomed_pane == Some(FocusPane::Response) {
                app.jump_response_start();
            }
            None
        },
        KeyCode::End => {
            if app.focus == FocusPane::Response || app.zoomed_pane == Some(FocusPane::Response) {
                app.jump_response_end();
            }
            None
        },
        KeyCode::Esc => {
            if app.zoomed_pane.is_some() {
                app.clear_response_search();
                app.clear_response_selection();
            }
            app.zoomed_pane = None;
            None
        },
        KeyCode::Backspace => {
            handle_backspace(app);
            None
        },
        KeyCode::Delete => {
            handle_delete(app);
            None
        },
        KeyCode::Char(c) => handle_char(app, c, key.modifiers.control),
        _ => None,
    }
}

/// Cycling networks keeps the active network within the list and selects it.
pub proof fn lemma_cycle_network(s: AppView)
    requires
        0 < s.settings.networks.len() <= usize::MAX,
    ensures
        ({
            let (t, cmd) = s.after_cycle_network();
            &&& t.settings.active_network < t.settings.networks.len()
            &&& t.settings.networks == s.settings.networks
            &&& t.selected_network == t.settings.active_network
            &&& t.settings.active_network == (s.settings.active_network + 1) % (s.settings.networks.len() as int)
            &&& cmd is Some
        }),
{
    let n = s.settings.networks.len() as int;
    let a = s.settings.active_network as int;
    assert(0 <= (a + 1) % n < n) by (nonlinear_arith)
        requires
            n > 0,
            a >= 0,
    ;
    let next = ((a + 1) % n) as usize;
    assert(next as int == (a + 1) % n);
    assert(s.settings.after_set_active(next).active_network == next);
}

/// Control-Q quits wherever no modal or network editor is open.
pub proof fn lemma_ctrl_q_quits(s: AppView)
    requires
        s.modal == ModalState::Closed,
        s.network_editor is None,
    ensures
        s.after_key(
            KeyEvent {
                code: KeyCode::Char('q'),
                modifiers: crate::app::features::events::KeyModifiers {
                    shift: false,
                    control: true,
                    alt: false,
                },
            },
        ).1 == Some(CommandView::Quit),
{
}

/// Escape outside modals leaves fullscreen, dropping search and selection.
pub proof fn lemma_esc_leaves_fullscreen(s: AppView, key: KeyEvent)
    requires
        s.modal == ModalState::Closed,
        s.network_editor is None,
        key.code == KeyCode::Esc,
    ensures
        ({
            let (t, cmd) = s.after_key(key);
            &&& t.zoomed_pane is None
            &&& cmd is None
            &&& (s.zoomed_pane is Some ==> t.response_search_query.len() == 0
                && t.response_selection_start is None)
        }),
{
}

/// Escape closes an open modal, unless it first closes the network editor.
pub proof fn lemma_esc_closes_modal(s: AppView, key: KeyEvent)
    requires
        s.modal != ModalState::Closed,
        key.code == KeyCode::Esc,
    ensures
        ({
            let t = s.after_key(key).0;
            if s.modal == ModalState::Settings && s.network_editor is Some {
                t.network_editor is None && t.modal == ModalState::Settings
            } else {
                t.modal == ModalState::Closed && t.modal_scroll == 0
            }
        }),
{
}

/// Three presses of Tab, outside search and fullscreen, bring the focus back.
pub proof fn lemma_tab_cycles(s: AppView)
    requires
        !s.search_enabled(),
        s.zoomed_pane is None,
    ensures
        s.after_tab(true).after_tab(true).after_tab(true).focus == s.focus,
        s.after_tab(true).after_tab(false).focus == s.focus,
{
}

} // verus!
