//! The state machine of a single-page application shell: routing between
//! its pages, the identity provider's login chain, and the navigation menu.
//! The host runs the commands that `shell::update` returns and feeds their
//! outcomes back as messages.

pub mod laws;
pub mod page;
pub mod session;
pub mod shell;
pub mod text;
pub mod url;
pub mod view;
