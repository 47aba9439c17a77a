//! Digital-rain simulation: per-column falling glyph streams, their colouring,
//! and the frame-by-frame decisions of the render loop.
mod random;
pub mod rain;
pub mod scheme;
pub mod stream;
