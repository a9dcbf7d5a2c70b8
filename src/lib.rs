//! Interactive control layer of a terminal chat client: pane focus,
//! selection-synced conversation lists, a width-aware text input buffer and
//! the key dispatch that ties them together.

pub mod pane;
pub mod observer;
pub mod conversation;
pub mod list;
pub mod editor;
pub mod focus;
pub mod app;
pub mod ticker;
