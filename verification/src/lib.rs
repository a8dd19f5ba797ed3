//! A falling-particle weather simulation: rows of rain, snow or hail that
//! fall at a speed set by their kind, drift with the wind, and wrap around
//! the edges of the screen.

mod random;
pub mod rain;
pub mod sdl;
