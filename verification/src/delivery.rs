//! One delivery: the walk over the listeners of one event type that a publish
//! makes.
//!
//! A delivery decides which listener is invoked next; invoking it is the
//! caller's part. A caller that has to wait for a listener does so between
//! two calls of [`Delivery::next`].
use vstd::prelude::*;
use std::any::TypeId;
use crate::erased::ErasedListener;
use crate::registry::after_registrations;
use crate::registry::lemma_listeners_are_the_registered_ones;
use crate::registry::listeners_for;
use crate::registry::registered_under;
use crate::registry::Entries;
use crate::registry::ListenerRegistry;
use crate::registry::Listeners;
use crate::registry::Registration;

verus! {

/// The state of one delivery: the listeners found for the event's type, and
/// how many of them have been handed out.
pub struct Delivery<'a> {
    found: Option<Listeners<'a>>,
    position: usize,
}

impl<'a> Delivery<'a> {
    /// The listeners that this delivery is to reach, in the order in which it
    /// hands them out. They are fixed when the delivery starts.
    pub closed spec fn listeners(&self) -> Seq<ErasedListener> {
        match self.found {
            Some(listeners) => listeners@,
            None => Seq::empty(),
        }
    }

    /// How many of the listeners have been handed out. The listeners from
    /// this position on are still pending.
    pub closed spec fn handed_out(&self) -> nat {
        if self.position <= self.listeners().len() {
            self.position as nat
        } else {
            self.listeners().len()
        }
    }

    /// A delivery never counts more listeners as handed out than it has.
    pub proof fn lemma_handed_out_is_bounded(&self)
        ensures
            self.handed_out() <= self.listeners().len(),
    {
    }

    /// Starts the delivery of an event whose type has the key `key`: it is to
    /// reach every listener registered under `key`, in registration order,
    /// and has handed out none yet.
    pub fn start(registry: &'a ListenerRegistry, key: &TypeId) -> (delivery: Self)
        ensures
            delivery.listeners() == listeners_for(registry@, *key),
            delivery.handed_out() == 0,
    {
        Delivery { found: registry.get(key), position: 0 }
    }

    /// Hands out the next listener: the first one on the first call, then
    /// each following one in turn, and `None` once every listener has been
    /// handed out.
    pub fn next(&mut self) -> (listener: Option<&ErasedListener>)
        ensures
            final(self).listeners() == old(self).listeners(),
            old(self).handed_out() < old(self).listeners().len() ==> listener == Some(
                &old(self).listeners()[old(self).handed_out() as int],
            ) && final(self).handed_out() == old(self).handed_out() + 1,
            old(self).handed_out() >= old(self).listeners().len() ==> listener.is_none()
                && final(self).handed_out() == old(self).handed_out(),
    {
        match &self.found {
            Some(listeners) => {
                if self.position < listeners.len() {
                    let listener = listeners.get(self.position);
                    self.position = self.position + 1;
                    listener
                } else {
                    None
                }
            },
            None => None,
        }
    }
}

/// Publishing an event of a type without listeners invokes no one: its
/// delivery has no listener to hand out.
pub proof fn lemma_nothing_is_delivered_without_listeners(
    entries: Entries,
    key: TypeId,
    delivery: Delivery,
)
    requires
        !entries.contains_key(key),
        delivery.listeners() == listeners_for(entries, key),
    ensures
        delivery.listeners().len() == 0,
        delivery.handed_out() == 0,
{
}

/// A publish reaches the listeners that were registered for the event's
/// type, and no other: its delivery hands them out in registration order,
/// each exactly once, whatever was registered for other event types.
pub proof fn lemma_publish_follows_registration_order(
    history: Seq<Registration>,
    key: TypeId,
    delivery: Delivery,
)
    requires
        delivery.listeners() == listeners_for(after_registrations(history), key),
    ensures
        delivery.listeners() == registered_under(history, key),
{
    lemma_listeners_are_the_registered_ones(history, key);
}

/// Publishing is repeatable: a delivery changes nothing in the registry, so
/// two deliveries for one key on one registry reach the same listeners in the
/// same order.
pub proof fn lemma_delivery_is_repeatable(
    entries: Entries,
    key: TypeId,
    first: Delivery,
    second: Delivery,
)
    requires
        first.listeners() == listeners_for(entries, key),
        second.listeners() == listeners_for(entries, key),
    ensures
        first.listeners() == second.listeners(),
{
}

} // verus!
