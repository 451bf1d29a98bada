//! What a user of the blocking bus imports.
pub use crate::event::ApplicationEvent;
pub use crate::sync::eventbus::Eventbus;
pub use crate::sync::eventbus::EventbusBuilder;
pub use crate::sync::listener::ApplicationEventListener;
pub use crate::sync::publisher::ApplicationEventPublisher;
pub use crate::sync::publisher::BuiltinSyncApplicationEventPublisher;
