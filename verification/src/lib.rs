//! A component runtime for text user interfaces: a property store, the
//! capability contract of a component, stock components and a registry that
//! owns the mounted components and routes input to the focused one.

pub mod component;
pub mod components;
pub mod event;
pub mod frame;
pub mod laws;
pub mod msg;
pub mod named_map;
pub mod props;
pub mod registry;
pub mod style;
pub mod text;

pub use component::{Component, PropsBuilder};
pub use event::Event;
pub use frame::Frame;
pub use msg::{Msg, Payload};
pub use registry::{Registry, RegistryError};
