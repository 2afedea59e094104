//! Verified core of a small bridge between a scripting front end and the
//! iceoryx2 inter-process communication middleware: port lifecycles,
//! service and port configuration, and the decisions of the event wait loops.

pub mod text;
pub mod error;
pub mod config;
pub mod service;
pub mod event;
pub mod pubsub;
