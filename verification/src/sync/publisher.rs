//! The blocking publisher: every listener runs on the caller's thread, before
//! `publish_event` returns.
use vstd::prelude::*;
use std::any::TypeId;
use std::sync::Arc;
use crate::delivery::Delivery;
use crate::erased::event_key;
use crate::erased::ErasedListener;
use crate::event::ApplicationEvent;
use crate::registry::one_registered;
use crate::registry::with_listener;
use crate::registry::Entries;
use crate::registry::ListenerRegistry;
use crate::sync::listener::ApplicationEventListener;

verus! {

/// What publishes events and keeps the listeners for them.
pub trait ApplicationEventPublisher {
    /// The registered listeners: for each event type with listeners, its
    /// listeners in registration order.
    spec fn listeners(&self) -> Entries;

    /// Registers `listener` for the events of type `T`. It comes last among
    /// the listeners of one event type; the listeners of every other type,
    /// and the ones registered before it, stay as they were.
    fn register_listener<T: ApplicationEvent + 'static, L: ApplicationEventListener<T> + 'static>(
        &mut self,
        listener: L,
    )
        ensures
            one_registered(old(self).listeners(), final(self).listeners()),
    ;

    /// Hands `event` to each listener registered for `T`, in registration
    /// order. Without such a listener nothing happens. The registered
    /// listeners stay as they are.
    fn publish_event<T: ApplicationEvent + 'static>(&self, event: T);
}

/// A listener for `T`, as the registry stores it behind a handle: a shared,
/// reference-counted handle on the listener itself.
#[verifier::reject_recursive_types(T)]
pub struct WrappedApplicationEventListener<T: ApplicationEvent> {
    listener: Arc<Box<dyn ApplicationEventListener<T>>>,
}

impl<T: ApplicationEvent> WrappedApplicationEventListener<T> {
    /// The listener that is wrapped.
    pub closed spec fn listener(&self) -> Arc<Box<dyn ApplicationEventListener<T>>> {
        self.listener
    }

    /// Wraps `listener`.
    pub fn new(listener: Arc<Box<dyn ApplicationEventListener<T>>>) -> (wrapper: Self)
        ensures
            wrapper.listener() == listener,
    {
        Self { listener }
    }
}

/// The publisher that the bus uses.
///
/// Registration takes `&mut self`, so it has the registry to itself: no
/// delivery runs while a listener is added. A delivery holds shared access to
/// the listeners of its event type for as long as it runs; publish calls from
/// several threads may run side by side. A listener that fails ends the
/// publish call that invoked it and stays registered.
pub struct BuiltinSyncApplicationEventPublisher {
    listeners: ListenerRegistry,
}

impl BuiltinSyncApplicationEventPublisher {
    /// A publisher without listeners.
    pub fn new() -> (publisher: Self)
        ensures
            publisher.listeners() == (Map::<TypeId, Seq<ErasedListener>>::empty()),
    {
        Self { listeners: ListenerRegistry::new() }
    }
}

/// Hands `event` to the listener behind `handle`. A handle that wraps
/// anything but a listener for `T` is passed over.
fn notify<T: ApplicationEvent + 'static>(handle: &ErasedListener, event: &T) {
    match handle.downcast_ref::<WrappedApplicationEventListener<T>>() {
        Some(wrapper) => wrapper.listener.on_application_event(event),
        None => {},
    }
}

/// Runs `delivery` to its end: hands `event` to each listener that has not
/// been handed out yet, in order, until every listener has been.
fn deliver<T: ApplicationEvent + 'static>(delivery: &mut Delivery<'_>, event: &T)
    ensures
        final(delivery).listeners() == old(delivery).listeners(),
        final(delivery).handed_out() == old(delivery).listeners().len(),
{
    proof {
        delivery.lemma_handed_out_is_bounded();
    }
    loop
        invariant
            delivery.listeners() == old(delivery).listeners(),
            delivery.handed_out() <= delivery.listeners().len(),
        ensures
            delivery.handed_out() == delivery.listeners().len(),
        decreases delivery.listeners().len() - delivery.handed_out(),
    {
        match delivery.next() {
            Some(handle) => notify::<T>(handle, event),
            None => {
                break;
            },
        }
    }
}

impl ApplicationEventPublisher for BuiltinSyncApplicationEventPublisher {
    closed spec fn listeners(&self) -> Entries {
        self.listeners@
    }

    fn register_listener<T: ApplicationEvent + 'static, L: ApplicationEventListener<T> + 'static>(
        &mut self,
        listener: L,
    ) {
        let boxed: Box<dyn ApplicationEventListener<T>> = Box::new(listener);
        let wrapper = WrappedApplicationEventListener::new(Arc::new(boxed));
        let handle = ErasedListener::new(wrapper);
        let key = event_key::<T>();
        let ghost before = self.listeners();
        let ghost added = handle;
        self.listeners.insert(key, handle);
        assert(self.listeners() == with_listener(before, key, added));
    }

    fn publish_event<T: ApplicationEvent + 'static>(&self, event: T) {
        let key = event_key::<T>();
        let mut delivery = Delivery::start(&self.listeners, &key);
        deliver::<T>(&mut delivery, &event);
    }
}

} // verus!
