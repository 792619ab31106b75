//! Settings record, process monitor and apply pipeline of a VR runtime tuning panel.
//!
//! The library decides; the host performs. Every operating-system effect is
//! described as a [`plan::Step`] value that a host executes in order.

pub mod settings;
pub mod monitor;
pub mod plan;
pub mod killer;
pub mod apply;
pub mod actions;
