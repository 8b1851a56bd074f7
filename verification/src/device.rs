//! What the engine asks of the graphics device.

pub mod graphics;
