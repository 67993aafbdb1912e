//! Input handling and canvas sizing for a WebGL2 window that lives in an HTML canvas.

pub mod keys;
pub mod input;
pub mod input_laws;
pub mod geometry;
pub mod error;
