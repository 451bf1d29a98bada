//! The event bus: the facade that callers register listeners with and
//! publish events on.
use vstd::prelude::*;
use std::any::TypeId;
use crate::erased::ErasedListener;
use crate::event::ApplicationEvent;
use crate::sync::listener::ApplicationEventListener;
use crate::sync::publisher::ApplicationEventPublisher;
use crate::sync::publisher::BuiltinSyncApplicationEventPublisher;
use crate::registry::one_registered;
use crate::registry::Entries;

verus! {

/// A bus with blocking delivery. It owns one publisher and hands both of its
/// operations on to it.
pub struct Eventbus {
    publisher: BuiltinSyncApplicationEventPublisher,
}

impl View for Eventbus {
    type V = Entries;

    /// The registered listeners: for each event type with listeners, its
    /// listeners in registration order.
    closed spec fn view(&self) -> Entries {
        self.publisher.listeners()
    }
}

impl Eventbus {
    /// The builder to make a bus with.
    pub fn builder() -> EventbusBuilder {
        EventbusBuilder::new()
    }

    fn new() -> (bus: Self)
        ensures
            bus@ == (Map::<TypeId, Seq<ErasedListener>>::empty()),
    {
        Eventbus { publisher: BuiltinSyncApplicationEventPublisher::new() }
    }

    /// Registers `listener` for the events of type `T`. It comes last among
    /// the listeners of one event type; the listeners of every other type,
    /// and the ones registered before it, stay as they were.
    pub fn register_listener<T, L>(&mut self, listener: L) where
        T: ApplicationEvent + 'static,
        L: ApplicationEventListener<T> + 'static,

        ensures
            one_registered(old(self)@, final(self)@),
    {
        self.publisher.register_listener::<T, L>(listener);
    }

    /// Hands `event` to each listener registered for `T`, in registration
    /// order, and returns when the last of them has returned. Without such a
    /// listener nothing happens.
    pub fn publish_event<T>(&self, event: T) where T: ApplicationEvent + 'static {
        self.publisher.publish_event(event);
    }
}

/// Makes an [`Eventbus`]. There is nothing to configure yet.
pub struct EventbusBuilder {}

impl EventbusBuilder {
    /// A builder.
    pub fn new() -> Self {
        Self {  }
    }

    /// A bus without listeners.
    pub fn build(self) -> (bus: Eventbus)
        ensures
            bus@ == (Map::<TypeId, Seq<ErasedListener>>::empty()),
    {
        return Eventbus::new();
    }
}

} // verus!
