//! Window placement and scroll synchronisation for a grid-based editor front-end.
//!
//! The library decides; the caller performs. Every operation on a window
//! returns the list of canvas operations that the toolkit layer must carry
//! out, and the contracts state both the new state and that list exactly.
pub mod geometry;
pub mod laws;
pub mod msg;
pub mod scroll;
pub mod window;
