//! Deep-link authorization for the dynbox desktop shell: reading the sign-in
//! token out of `dynbox://authorize` links, the tray menu's dispatch, and the
//! launch-at-login toggle.

pub mod text;
pub mod link;
pub mod authorize;
pub mod tray;
pub mod autostart;
