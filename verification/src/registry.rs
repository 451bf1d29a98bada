//! The listener registry: event-type identity to the ordered listeners of
//! that type.
//!
//! The registry keeps its entries in a `dashmap::DashMap`. Its mathematical
//! model is a map from keys to sequences of handles; [`listeners_for`] and
//! [`with_listener`] say over that model what a lookup yields and what a
//! registration changes, and the proof functions at the end of the file state
//! what follows for delivery.
use vstd::prelude::*;
use std::any::TypeId;
use dashmap::DashMap;
use dashmap::mapref::one::Ref;
use crate::erased::ErasedListener;

verus! {

/// `dashmap::DashMap`, opaque to the verifier.
#[verifier::external_type_specification]
#[verifier::external_body]
#[verifier::reject_recursive_types(K)]
#[verifier::reject_recursive_types(V)]
#[verifier::reject_recursive_types(S)]
pub struct ExDashMap<K, V, S>(DashMap<K, V, S>);

/// `dashmap::mapref::one::Ref`, the guard that `DashMap::get` hands out.
#[verifier::external_type_specification]
#[verifier::external_body]
#[verifier::reject_recursive_types(K)]
#[verifier::reject_recursive_types(V)]
pub struct ExRef<'a, K, V>(Ref<'a, K, V>);

/// The model of a registry: for each event type with listeners, its listeners
/// in registration order.
pub type Entries = Map<TypeId, Seq<ErasedListener>>;

/// What a `DashMap` of listener lists holds: its keys, each with the contents
/// of its list. The registry changes its map through an exclusive borrow
/// only, so what a shared borrow sees stays as it is.
pub uninterp spec fn stored(map: DashMap<TypeId, Vec<ErasedListener>>) -> Map<TypeId, Seq<ErasedListener>>;

/// The list that a guard from `DashMap::get` points at: what `Ref::value`
/// returns.
pub uninterp spec fn guarded(guard: Ref<TypeId, Vec<ErasedListener>>) -> Seq<ErasedListener>;

/// `DashMap::new`: a map without entries.
#[verifier::external_body]
fn map_new() -> (map: DashMap<TypeId, Vec<ErasedListener>>)
    ensures
        stored(map) == (Map::<TypeId, Seq<ErasedListener>>::empty()),
{
    DashMap::new()
}

/// `DashMap::remove`: takes the entry of `key` out of the map and returns its
/// key and value, or returns `None` and leaves the map as it was where the
/// key has no entry. The exclusive borrow rules out a guard into the map,
/// which the call would wait for.
#[verifier::external_body]
fn map_remove(map: &mut DashMap<TypeId, Vec<ErasedListener>>, key: &TypeId) -> (removed: Option<
    (TypeId, Vec<ErasedListener>),
>)
    ensures
        stored(*final(map)) == stored(*old(map)).remove(*key),
        removed.is_some() == stored(*old(map)).contains_key(*key),
        removed.is_some() ==> removed.unwrap().0 == *key && removed.unwrap().1@ == stored(
            *old(map),
        )[*key],
{
    map.remove(key)
}

/// `DashMap::insert`: sets the entry of `key` to `value` and returns the
/// value that the key had before, if it had one. The exclusive borrow rules
/// out a guard into the map, which the call would wait for.
#[verifier::external_body]
fn map_insert(
    map: &mut DashMap<TypeId, Vec<ErasedListener>>,
    key: TypeId,
    value: Vec<ErasedListener>,
) -> (previous: Option<Vec<ErasedListener>>)
    ensures
        stored(*final(map)) == stored(*old(map)).insert(key, value@),
        previous.is_some() == stored(*old(map)).contains_key(key),
        previous.is_some() ==> previous.unwrap()@ == stored(*old(map))[key],
{
    map.insert(key, value)
}

/// `DashMap::get`: a guard on the entry of `key`, through which its list can
/// be read, or `None` where the key has no entry.
#[verifier::external_body]
fn map_get<'a>(map: &'a DashMap<TypeId, Vec<ErasedListener>>, key: &TypeId) -> (found: Option<
    Ref<'a, TypeId, Vec<ErasedListener>>,
>)
    ensures
        found.is_some() == stored(*map).contains_key(*key),
        found.is_some() ==> guarded(found.unwrap()) == stored(*map)[*key],
{
    map.get(key)
}

/// `Ref::value`: the value that the guard points at.
#[verifier::external_body]
fn guard_value<'a, 'b>(guard: &'b Ref<'a, TypeId, Vec<ErasedListener>>) -> (list: &'b Vec<
    ErasedListener,
>)
    ensures
        list@ == guarded(*guard),
{
    guard.value()
}

/// The listeners registered under `key`, in registration order; none where
/// the key has no entry.
pub open spec fn listeners_for(entries: Entries, key: TypeId) -> Seq<ErasedListener> {
    if entries.contains_key(key) {
        entries[key]
    } else {
        Seq::empty()
    }
}

/// The entries after `listener` has been registered under `key`: it comes
/// last among the listeners of `key`, and every other key keeps its list.
pub open spec fn with_listener(entries: Entries, key: TypeId, listener: ErasedListener) -> Entries {
    entries.insert(key, listeners_for(entries, key).push(listener))
}

/// `after` is `before` with one more listener registered: under some key a
/// listener was appended, and nothing else changed.
pub open spec fn one_registered(before: Entries, after: Entries) -> bool {
    exists|key: TypeId, listener: ErasedListener| after == with_listener(before, key, listener)
}

/// One registration: `listener` was registered for the event type with the
/// key `key`.
pub struct Registration {
    pub key: TypeId,
    pub listener: ErasedListener,
}

/// The entries of a registry that was made empty and then saw the
/// registrations of `history`, first to last.
pub open spec fn after_registrations(history: Seq<Registration>) -> Entries
    decreases history.len(),
{
    if history.len() == 0 {
        Map::empty()
    } else {
        with_listener(
            after_registrations(history.drop_last()),
            history.last().key,
            history.last().listener,
        )
    }
}

/// The listeners that `history` registers under `key`, in the order of their
/// registration.
pub open spec fn registered_under(history: Seq<Registration>, key: TypeId) -> Seq<ErasedListener> {
    history.filter(|registration: Registration| registration.key == key).map_values(
        |registration: Registration| registration.listener,
    )
}

/// A concurrent mapping from event-type identity to the ordered listeners of
/// that type. Entries are only ever added.
pub struct ListenerRegistry {
    map: DashMap<TypeId, Vec<ErasedListener>>,
}

impl View for ListenerRegistry {
    type V = Entries;

    closed spec fn view(&self) -> Entries {
        stored(self.map)
    }
}

/// The listeners of one event type, as a lookup found them. The registry
/// cannot change while a value of this type is alive.
pub struct Listeners<'a> {
    guard: Ref<'a, TypeId, Vec<ErasedListener>>,
}

impl<'a> View for Listeners<'a> {
    type V = Seq<ErasedListener>;

    closed spec fn view(&self) -> Seq<ErasedListener> {
        guarded(self.guard)
    }
}

impl<'a> Listeners<'a> {
    /// The number of listeners found.
    pub fn len(&self) -> (n: usize)
        ensures
            n == self@.len(),
    {
        guard_value(&self.guard).len()
    }

    /// The listener at `position` in registration order, or `None` past the
    /// last one.
    pub fn get(&self, position: usize) -> (listener: Option<&ErasedListener>)
        ensures
            position < self@.len() ==> listener == Some(&self@[position as int]),
            position >= self@.len() ==> listener.is_none(),
    {
        let list = guard_value(&self.guard);
        if position < list.len() {
            Some(&list[position])
        } else {
            None
        }
    }
}

impl ListenerRegistry {
    /// A registry without listeners.
    pub fn new() -> (registry: Self)
        ensures
            registry@ == (Map::<TypeId, Seq<ErasedListener>>::empty()),
    {
        ListenerRegistry { map: map_new() }
    }

    /// Appends `listener` to the listeners of `key`, creating the entry of
    /// `key` if it has none. No other entry changes.
    pub fn insert(&mut self, key: TypeId, listener: ErasedListener)
        ensures
            final(self)@ == with_listener(old(self)@, key, listener),
    {
        let mut list = match map_remove(&mut self.map, &key) {
            Some((_, list)) => list,
            None => Vec::new(),
        };
        list.push(listener);
        let _ = map_insert(&mut self.map, key, list);
    }

    /// The listeners of `key` in registration order, or `None` where none was
    /// ever registered under it.
    pub fn get(&self, key: &TypeId) -> (found: Option<Listeners<'_>>)
        ensures
            found.is_some() == self@.contains_key(*key),
            found.is_some() ==> found.unwrap()@ == listeners_for(self@, *key),
    {
        match map_get(&self.map, key) {
            Some(guard) => Some(Listeners { guard }),
            None => None,
        }
    }
}

/// An event type under which nothing was registered has no listeners.
pub proof fn lemma_unregistered_type_has_no_listeners(entries: Entries, key: TypeId)
    requires
        !entries.contains_key(key),
    ensures
        listeners_for(entries, key) == Seq::<ErasedListener>::empty(),
{
}

/// A registration puts its listener behind the listeners that its event type
/// already has.
pub proof fn lemma_registration_appends(entries: Entries, key: TypeId, listener: ErasedListener)
    ensures
        listeners_for(with_listener(entries, key, listener), key) == listeners_for(entries, key).push(
            listener,
        ),
{
}

/// A registration for one event type leaves the listeners of every other
/// event type as they were.
pub proof fn lemma_registration_leaves_other_types(
    entries: Entries,
    key: TypeId,
    listener: ErasedListener,
    other: TypeId,
)
    requires
        other != key,
    ensures
        listeners_for(with_listener(entries, key, listener), other) == listeners_for(entries, other),
{
}

/// One registration only appends: whatever key it went under, the listeners
/// that any key had keep their places, and no key gains more than one.
pub proof fn lemma_registration_only_appends(before: Entries, after: Entries, key: TypeId)
    requires
        one_registered(before, after),
    ensures
        listeners_for(before, key).is_prefix_of(listeners_for(after, key)),
        listeners_for(after, key).len() <= listeners_for(before, key).len() + 1,
{
    let (at, listener) = choose|at: TypeId, listener: ErasedListener|
        after == with_listener(before, at, listener);
    assert(after == with_listener(before, at, listener));
    if at == key {
        assert(listeners_for(after, key) == listeners_for(before, key).push(listener));
        assert(listeners_for(after, key).subrange(0, listeners_for(before, key).len() as int)
            == listeners_for(before, key));
    } else {
        assert(listeners_for(after, key) == listeners_for(before, key));
        assert(listeners_for(after, key).subrange(0, listeners_for(before, key).len() as int)
            == listeners_for(before, key));
    }
}

/// Two event types are independent: a listener registered under one key and
/// a listener registered under another come out the same in either order of
/// registration, and each key gains its own listener only.
pub proof fn lemma_types_are_independent(
    entries: Entries,
    first: TypeId,
    first_listener: ErasedListener,
    second: TypeId,
    second_listener: ErasedListener,
)
    requires
        first != second,
    ensures
        with_listener(with_listener(entries, first, first_listener), second, second_listener)
            == with_listener(
            with_listener(entries, second, second_listener),
            first,
            first_listener,
        ),
        listeners_for(
            with_listener(with_listener(entries, first, first_listener), second, second_listener),
            first,
        ) == listeners_for(entries, first).push(first_listener),
        listeners_for(
            with_listener(with_listener(entries, first, first_listener), second, second_listener),
            second,
        ) == listeners_for(entries, second).push(second_listener),
{
}

/// The listeners of an event type are those that were registered for it,
/// each once and in registration order, whatever was registered for other
/// event types before, between or after them.
pub proof fn lemma_listeners_are_the_registered_ones(history: Seq<Registration>, key: TypeId)
    ensures
        listeners_for(after_registrations(history), key) == registered_under(history, key),
    decreases history.len(),
{
    reveal(Seq::filter);
    let chosen = |registration: Registration| registration.key == key;
    let listener_of = |registration: Registration| registration.listener;
    if history.len() > 0 {
        let earlier = history.drop_last();
        lemma_listeners_are_the_registered_ones(earlier, key);
        if history.last().key == key {
            assert(history.filter(chosen) == earlier.filter(chosen).push(history.last()));
            assert(earlier.filter(chosen).push(history.last()).map_values(listener_of)
                == earlier.filter(chosen).map_values(listener_of).push(history.last().listener));
        } else {
            assert(history.filter(chosen) == earlier.filter(chosen));
        }
    } else {
        assert(history.filter(chosen).map_values(listener_of) == Seq::<ErasedListener>::empty());
    }
}

} // verus!
