//! A registry of named scenes. Asking for a transition to a scene announces a
//! cancellable event on the engine's event channel; any listener may veto it.

pub mod scene;
pub mod error;
pub mod event;
pub mod bus;
pub mod manager;
pub mod shared;
