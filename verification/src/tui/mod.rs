//! The terminal front end: the session history, the application state and
//! the chat, input and status widgets. Drawing onto the terminal is left to
//! the caller; these types decide what is drawn.

pub mod app;
pub mod chat;
pub mod input;
pub mod session;
pub mod status;
pub mod style;
