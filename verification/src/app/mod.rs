pub mod features;
pub mod methods;
pub mod model;

pub use self::features::events::{KeyCode, KeyEvent, KeyModifiers, MouseEvent, MouseEventKind};
pub use self::features::runtime::{OutgoingRequest, PollOutcome};
pub use self::model::state::App;
pub use self::model::types::{
    AppCommand, FocusPane, ModalState, NetworkEditor, PaginatedResponse, Rect, TimedStatus,
    UiRegions,
};
