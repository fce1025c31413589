//! A split-flap departure board: a grid of glyph tiles that shows station names
//! and departure times, advances by one row on request, and keeps count of the
//! carriers that move payloads between tiles.

pub mod board;
pub mod carriers;
mod chance;
pub mod clock;
pub mod geometry;
pub mod glyph;
pub mod layout;
pub mod schedule;
pub mod shift;
pub mod slot;
pub mod stations;
pub mod text;
