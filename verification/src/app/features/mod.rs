pub mod clock;
pub mod events;
pub mod forms;
pub mod networks;
pub mod response;
pub mod runtime;
pub mod wrapping;
