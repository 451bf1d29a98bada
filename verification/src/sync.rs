//! The blocking bus: `publish_event` returns when every listener has run.

pub mod eventbus;
pub mod listener;
pub mod prelude;
pub mod publisher;
