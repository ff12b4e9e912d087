//! Thermal clip frame streaming and rendering: a pull-based byte buffer fed by
//! pushed chunks, frame range selection, clip-wide bounds, sample normalization,
//! Viridis colorization, and the interactive session state machine.

pub mod bounds;
pub mod frame;
pub mod render;
pub mod session;
pub mod source;
