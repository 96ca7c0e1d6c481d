//! What the screen shows, computed from the application state: the pane layout,
//! where the caret stands, and the styled text of panes and modals. Drawing it is
//! left to the terminal front end.

pub mod caret;
pub mod form;
pub mod json;
pub mod layout;
pub mod modals;
pub mod panes;
pub mod style;
