//! Frame-synchronous input interception and navigation for a modal settings
//! overlay: button decoding, hold tracking, close cooldown, the settings
//! document, and the defensive-option decisions that read it.

pub mod buttons;
pub mod frame_counter;
pub mod holds;
pub mod menu;
pub mod settings;
pub mod tech;
