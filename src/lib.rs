//! Turns note triggers into key presses that are released, in order, once each
//! trigger's hold time has passed.
pub mod event;
pub mod queue;
pub mod schedule;
pub mod port;
