//! A convenience layer for 2D windowing: input events are routed to typed
//! consumers, and a scene is flipped by policy.
//!
//! Consumers declare which kinds of input they accept, capability by
//! capability; an [`input::InputHandler`] forwards each event to the
//! consumers that asked for it and keeps track of the buttons that are held.

pub mod button;
pub mod consumer;
pub mod event;
pub mod input;
pub mod render;
