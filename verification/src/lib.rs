//! Declarative configuration layer for a window-compositing host.
//!
//! The crate decides; the host acts. A binding table maps modifier+key
//! combinations to actions, an arrangement engine computes connector
//! positions from connectivity state, and a status module renders the
//! periodic resource summary and the wall-clock alignment of its timer.

pub mod actions;
pub mod arrange;
pub mod bindings;
pub mod defaults;
pub mod devices;
pub mod keys;
pub mod status;
pub mod timer;
