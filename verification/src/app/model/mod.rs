pub mod forms;
pub mod state;
pub mod types;
