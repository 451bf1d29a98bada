//! An in-process, typed publish/subscribe bus.
//!
//! Producers publish strongly typed event values; the listeners registered for
//! exactly that event type receive them, one after another, in the order in
//! which they were registered.
//!
//! * [`event`] holds the capability that event types implement.
//! * [`erased`] hides a listener's concrete type behind a uniform handle and
//!   gives each event type its key.
//! * [`registry`] is the mapping from event-type identity to the ordered
//!   listeners of that type, with its mathematical model and the laws that
//!   hold of it.
//! * [`delivery`] walks the listeners of one event type, one at a time.
//! * [`sync`] is the blocking bus: its listener capability, its publisher and
//!   the facade in front of it.

pub mod delivery;
pub mod erased;
pub mod event;
pub mod registry;
pub mod sync;
