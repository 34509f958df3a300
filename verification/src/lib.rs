//! Gesture recognition and action dispatch.
//!
//! The crate turns a stream of decoded trackpad gesture events into the
//! reactions that a set of configured bindings asks for. It performs no input
//! or output of its own: every listener is a state machine from an event to a
//! [`event::Reaction`], and the caller carries the reaction out.
//!
//! All quantities are integers. Displacements are signed counts of whatever
//! fixed-point unit the caller reads its device in; only their signs and
//! relative sizes matter. Scale factors are counted in millionths, so that
//! [`event::NEUTRAL_SCALE`] stands for a ratio of one.

pub mod classifier;
pub mod configuration;
pub mod event;
pub mod gesture_handler;
pub mod gesture_listener;
pub mod laws;
pub mod model;
