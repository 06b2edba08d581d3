//! A tile map drawn as a mosaic of glyphs.
//!
//! A [`World`] is a grid of open and solid cells. Each cell is drawn as a
//! block of three by three glyphs: a wall is filled solid, gets a line along
//! each side that faces open floor, and an arc in each corner where its
//! outline turns. A [`Viewport`] scrolls over the map by single glyphs and
//! says which glyph goes where on the screen.

pub mod draw;
pub mod glyph;
pub mod input;
pub mod raster;
pub mod tile;
pub mod viewport;
pub mod world;

pub use glyph::Glyph;
pub use raster::Raster;
pub use tile::Tile;
pub use viewport::ScreenGlyph;
pub use viewport::Viewport;
pub use world::World;
