//! A fullscreen confirmation overlay, modelled as plain data and a small
//! state machine: the surface's settings, the input events it receives, and
//! the one outcome each run resolves to.

pub mod config;
pub mod effect;
pub mod input;
pub mod overlay;
pub mod resolver;
pub mod surface;
