//! The listener capability.
use vstd::prelude::*;
use crate::event::ApplicationEvent;

verus! {

/// A handler for the events of one type `T`.
///
/// A registered listener is kept for the lifetime of the bus and invoked once
/// for each published `T`. A listener with state of its own guards that state
/// itself: the bus may be published on from several threads.
pub trait ApplicationEventListener<T: ApplicationEvent>: Send + Sync {
    /// Handles one published event.
    fn on_application_event(&self, event: &T);
}

} // verus!
