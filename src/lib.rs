//! Client-side state of a terminal task manager: a local mirror of the
//! remote projects and tasks, list cursors that wrap around, the add-task and
//! add-project forms, and the key dispatcher that drives them.
//!
//! Network access, terminal rendering and key capture live outside this
//! library; the dispatcher hands back the remote call to perform instead.
pub mod api;
pub mod config;
pub mod input;
pub mod key_events;
pub mod menu;
pub mod navigation;
pub mod project;
pub mod task;
pub mod text;
