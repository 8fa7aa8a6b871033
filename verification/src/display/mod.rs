//! What the display shows of the active page, and when it has to be drawn
//! again.

pub mod layout;
pub mod scheduler;
pub mod text;

pub use layout::{display_state_changed, DisplayChanges, DisplayConfig, DisplayState};
pub use scheduler::DisplayRenderScheduler;
