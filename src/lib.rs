//! The core of a small "now playing" display: the fixed screen layout and its
//! hit testing, text truncation, and the decisions of the background worker
//! that polls the remote player.
pub mod layout;
pub mod model;
pub mod poll;
pub mod spotify;
pub mod text;
