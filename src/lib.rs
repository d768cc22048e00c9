//! A countdown timer: a verified state machine that counts a configured
//! duration down once per second, the observer bridge that carries its
//! signals to subscribers and its commands back in, and the values that
//! cross the boundary between a presentation layer and the engine.

pub mod engine;
pub mod bridge;
pub mod service;
pub mod host;
pub mod command;
pub mod presenter;
