//! What the login UI shows that is decided apart from drawing.
pub mod background;
pub mod bg_animation;
pub mod common;
pub mod layout;
pub mod prompt;
pub mod sessions;
pub mod users;
