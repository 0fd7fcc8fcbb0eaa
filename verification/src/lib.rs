//! A single-pass post-processing effect for the 3D render graph of the bevy
//! engine: a fragment shader that runs over the whole screen, between the
//! end of the main pass and the end of post-processing, driven by a settings
//! value on each camera.
//!
//! The crate holds every decision of the effect and leaves the engine to
//! whoever embeds it:
//!
//! - [`plugin`] is the effect's fixed configuration;
//! - [`registration`] lists what is registered with the engine at startup;
//! - [`bindings`] fixes which resource sits in which slot of the bind group;
//! - [`pipeline`] describes what is created once for the render pipeline;
//! - [`node`] is the render graph node, a state machine that asks the engine
//!   for what it needs and says what to record for a view;
//! - [`frame`] runs the node against a view and states what a run records.

pub mod bindings;
pub mod frame;
pub mod node;
pub mod pipeline;
pub mod plugin;
pub mod registration;

pub use crate::plugin::PostProcessPlugin;
