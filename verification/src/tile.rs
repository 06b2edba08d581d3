use vstd::prelude::*;

verus! {

/// The state of one cell of the map.
///
/// `Outside` is never stored in a map: it is what a lookup answers for a
/// coordinate that lies beyond the map's extent.
#[derive(Clone, Copy, Debug, PartialEq, Eq, Structural)]
pub enum Tile {
    /// Open floor.
    Air,
    /// Solid wall.
    Wall,
    /// Beyond the edge of the map.
    Outside,
}

impl Tile {
    /// The state that a pixel of the map image stands for: pure red is a
    /// wall, every other colour is open floor.
    pub open spec fn of_pixel(pixel: (u8, u8, u8)) -> Tile {
        if pixel.0 == 255 && pixel.1 == 0 && pixel.2 == 0 {
            Tile::Wall
        } else {
            Tile::Air
        }
    }

    /// Classifies one pixel, given as its red, green and blue channels.
    pub fn from(pixel: (u8, u8, u8)) -> (tile: Tile)
        ensures
            tile == Tile::of_pixel(pixel),
            tile != Tile::Outside,
    {
        match pixel {
            (255, 0, 0) => Tile::Wall,
            _ => Tile::Air,
        }
    }
}

} // verus!
