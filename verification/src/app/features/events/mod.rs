//! Keyboard and mouse input: the events the terminal delivers, as plain values, and
//! the application's answer to each.

mod focus;
mod keyboard;
mod modal;
mod mouse;
mod network;
mod search;

use vstd::prelude::*;

pub use self::focus::{
    contains_point, focus_after, focus_before, lemma_focus_cycle, next_focus, point_in, prev_focus,
};
pub use self::keyboard::{
    lemma_ctrl_q_quits, lemma_cycle_network, lemma_esc_closes_modal, lemma_esc_leaves_fullscreen,
    lemma_tab_cycles,
};
pub use self::network::current_field_of;
pub use self::search::{lemma_search_insert_backspace, min_of};

use crate::app::model::state::{command_view, App};
use crate::app::model::types::AppCommand;

verus! {

/// A key as the terminal reports it.
#[derive(Debug, Clone, Copy, PartialEq, Eq, Structural)]
pub enum KeyCode {
    Backspace,
    Enter,
    Left,
    Right,
    Up,
    Down,
    Home,
    End,
    PageUp,
    PageDown,
    Tab,
    BackTab,
    Delete,
    Insert,
    Esc,
    Char(char),
    /// Any other key
    Other,
}

/// Modifier keys held with a key.
#[derive(Debug, Clone, Copy, PartialEq, Eq, Structural)]
pub struct KeyModifiers {
    pub shift: bool,
    pub control: bool,
    pub alt: bool,
}

/// A key press with its modifiers.
#[derive(Debug, Clone, Copy, PartialEq, Eq, Structural)]
pub struct KeyEvent {
    pub code: KeyCode,
    pub modifiers: KeyModifiers,
}

/// What the mouse did.
#[derive(Debug, Clone, Copy, PartialEq, Eq, Structural)]
pub enum MouseEventKind {
    Down,
    Up,
    Drag,
    Moved,
    ScrollDown,
    ScrollUp,
    ScrollLeft,
    ScrollRight,
}

/// A mouse event at a terminal cell.
#[derive(Debug, Clone, Copy, PartialEq, Eq, Structural)]
pub struct MouseEvent {
    pub kind: MouseEventKind,
    pub column: u16,
    pub row: u16,
}

impl KeyModifiers {
    /// No modifier held.
    pub fn none() -> (m: Self)
        ensures
            !m.shift && !m.control && !m.alt,
    {
        KeyModifiers { shift: false, control: false, alt: false }
    }

    /// Shift held.
    pub fn shift() -> (m: Self)
        ensures
            m.shift && !m.control && !m.alt,
    {
        KeyModifiers { shift: true, control: false, alt: false }
    }

    /// Control held.
    pub fn control() -> (m: Self)
        ensures
            !m.shift && m.control && !m.alt,
    {
        KeyModifiers { shift: false, control: true, alt: false }
    }
}

impl KeyEvent {
    /// A key press with the given modifiers.
    pub fn new(code: KeyCode, modifiers: KeyModifiers) -> (k: Self)
        ensures
            k.code == code,
            k.modifiers == modifiers,
    {
        KeyEvent { code, modifiers }
    }
}

impl MouseEvent {
    /// A mouse event at a cell.
    pub fn new(kind: MouseEventKind, column: u16, row: u16) -> (e: Self)
        ensures
            e.kind == kind,
            e.column == column,
            e.row == row,
    {
        MouseEvent { kind, column, row }
    }
}

impl App {
    /// Central keyboard entry so precedence stays in one place.
    pub fn handle_key(&mut self, key: KeyEvent) -> (r: Option<AppCommand>)
        requires
            old(self)@.wf(),
            old(self)@.typing_room(),
        ensures
            (final(self)@, command_view(r)) == old(self)@.after_key(key),
            final(self)@.wf(),
    {
        keyboard::handle_key(self, key)
    }

    /// Central mouse entry so pane focus logic stays unified.
    pub fn handle_mouse(&mut self, event: MouseEvent)
        requires
            old(self)@.wf(),
        ensures
            final(self)@ == old(self)@.after_mouse(event),
            final(self)@.wf(),
    {
        self.handle_mouse_inner(event)
    }
}

} // verus!
