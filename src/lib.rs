//! Delegating wrappers for a composable text user interface.
//!
//! A [`component::Component`] is anything that can be drawn, sized, laid
//! out, focused, searched and fed input events. A [`wrapper::ViewWrapper`]
//! owns exactly one child component and presents itself as a component by
//! forwarding every operation to that child, falling back to a documented
//! neutral value whenever the child cannot be reached.

pub mod geometry;
pub mod event;
pub mod printer;
pub mod component;
pub mod wrapper;
pub mod adapters;
pub mod leaf;
pub mod laws;
