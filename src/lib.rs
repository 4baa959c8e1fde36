//! A seven-segment LED style font for the digits `0` to `9` and the decimal
//! point. The library computes, for a string, a position and the bounds of a
//! drawing surface, the exact sequence of filled shapes to draw.
pub mod geometry;
pub mod shapes;
pub mod font;
pub mod laws;
