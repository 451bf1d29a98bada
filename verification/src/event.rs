//! The event capability.
use vstd::prelude::*;

verus! {

/// A value that can be published.
///
/// Dispatch goes by the implementing type itself. The topic is a label for
/// people and logs: two event types may share one topic and are still
/// delivered apart.
pub trait ApplicationEvent: Send + Sync {
    /// The logical topic of this event type; the same for every value of it.
    fn topic() -> String;
}

} // verus!
