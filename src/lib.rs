//! Event bridge between a host that calls in per lifecycle event and a frame
//! loop that pulls its events once per frame.
pub mod event_queue;
pub mod events;
pub mod window;
pub mod backend;
pub mod registry;
pub mod event_bus;
pub mod game;
pub mod session;
