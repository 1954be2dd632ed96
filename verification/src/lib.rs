//! Subscriber of a channel: a state machine that binds to an announced channel,
//! prepares the messages that a Subscriber sends and handles those that it receives.

pub mod draws;
pub mod error;
pub mod key_ring;
pub mod keys;
pub mod laws;
pub mod link;
pub mod message;
pub mod model;
pub mod state;
pub mod steps;
pub mod subscriber;
pub mod tbits;
