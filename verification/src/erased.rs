//! Type-erased listener handles and event-type identity.
//!
//! Listeners for different event types have different types. The registry
//! stores them all behind one handle type and finds them again by the
//! identity of the event type; a checked cast recovers the concrete listener.
use vstd::prelude::*;
use std::any::Any;
use std::any::TypeId;

verus! {

/// `std::any::TypeId`: the identity of a type, used as the registry's key.
/// The verifier knows nothing of a value of it but whether two of them are
/// the same.
#[verifier::external_type_specification]
#[verifier::external_body]
pub struct ExTypeId(TypeId);

/// A listener whose concrete type is hidden.
///
/// The handle owns the wrapped value as a `Box<dyn Any + Send + Sync>`, a
/// type that the verifier does not take in a field. So the verifier sees none
/// of it: to it a handle is an opaque value that can be stored, told apart
/// from another in a contract, and handed to [`ErasedListener::downcast_ref`].
#[verifier::external_body]
pub struct ErasedListener {
    payload: Box<dyn Any + Send + Sync>,
}

/// `Box::new`, with the box coerced to `Box<dyn Any + Send + Sync>`. Nothing
/// is claimed of the handle that comes back.
#[verifier::external_body]
fn box_any<W: Send + Sync + 'static>(wrapper: W) -> ErasedListener {
    ErasedListener { payload: Box::new(wrapper) }
}

/// `<dyn Any>::downcast_ref`: a reference to the boxed value if it is a `W`,
/// `None` otherwise. Which of the two comes back is not claimed.
#[verifier::external_body]
fn unbox_any<W: 'static>(handle: &ErasedListener) -> Option<&W> {
    handle.payload.downcast_ref::<W>()
}

/// `TypeId::of`: the identity of `T`. Its value may differ from one build to
/// the next, so nothing is claimed of it.
#[verifier::external_body]
fn type_id_of<T: 'static>() -> TypeId {
    TypeId::of::<T>()
}

impl ErasedListener {
    /// Hides `wrapper` behind a handle.
    pub fn new<W: Send + Sync + 'static>(wrapper: W) -> Self {
        box_any(wrapper)
    }

    /// The wrapped value, if the handle was made from a `W`; `None` if it was
    /// made from a value of another type.
    pub fn downcast_ref<W: 'static>(&self) -> Option<&W> {
        unbox_any(self)
    }
}

/// The key under which the listeners for events of type `T` are kept: the
/// identity of `T`. Two types never share a key, whatever topics they report.
pub fn event_key<T: 'static>() -> TypeId {
    type_id_of::<T>()
}

} // verus!
