use crate::raster::raster_height;
use crate::raster::raster_pixels;
use crate::raster::raster_width;
use crate::raster::Raster;
use crate::tile::Tile;
use vstd::prelude::*;

verus! {

/// The mathematical model of a map: its extent and its tiles, row by row.
pub struct WorldView {
    pub width: nat,
    pub height: nat,
    pub tiles: Seq<Tile>,
}

impl WorldView {
    /// There is one stored tile for each cell, and none of them is `Outside`.
    pub open spec fn wf(self) -> bool {
        &&& self.tiles.len() == self.width * self.height
        &&& forall|i: int| 0 <= i < self.tiles.len() ==> self.tiles[i] != Tile::Outside
    }

    /// Whether the cell `(x, y)` lies within the map.
    pub open spec fn in_bounds(self, x: int, y: int) -> bool {
        0 <= x < self.width && 0 <= y < self.height
    }

    /// The tile of the cell `(x, y)`, or `Outside` for a cell beyond the map.
    pub open spec fn tile_at(self, x: int, y: int) -> Tile {
        if self.in_bounds(x, y) {
            self.tiles[y * self.width + x]
        } else {
            Tile::Outside
        }
    }
}

/// A rectangular map of tiles. It does not change once it is made.
pub struct World {
    data: Vec<Tile>,
    width: u32,
    height: u32,
}

impl View for World {
    type V = WorldView;

    closed spec fn view(&self) -> WorldView {
        WorldView { width: self.width as nat, height: self.height as nat, tiles: self.data@ }
    }
}

/// The index of an in-bounds cell lies within the stored tiles.
proof fn lemma_index_in_range(width: int, height: int, x: int, y: int)
    requires
        0 <= x < width,
        0 <= y < height,
    ensures
        0 <= y * width,
        0 <= y * width + x < width * height,
{
    assert(y * width + width <= height * width) by (nonlinear_arith)
        requires
            0 <= y < height,
            0 <= width,
    ;
    assert(0 <= y * width) by (nonlinear_arith)
        requires
            0 <= y,
            0 <= width,
    ;
    assert(height * width == width * height) by (nonlinear_arith);
}

impl World {
    /// The invariant of a map.
    pub open spec fn wf(&self) -> bool {
        self@.wf()
    }

    /// Makes a map of `width` by `height` cells from its tiles, given row by
    /// row.
    pub fn new(width: u32, height: u32, data: Vec<Tile>) -> (world: World)
        requires
            data@.len() == width * height,
            forall|i: int| 0 <= i < data@.len() ==> data@[i] != Tile::Outside,
        ensures
            world.wf(),
            world@ == (WorldView { width: width as nat, height: height as nat, tiles: data@ }),
    {
        World { data, width, height }
    }

    /// Makes the map that an image draws: one cell for each pixel, a wall
    /// where the pixel is pure red and open floor elsewhere.
    pub fn from(image: &Raster) -> (world: World)
        ensures
            world.wf(),
            world@.width == raster_width(*image),
            world@.height == raster_height(*image),
            world@.tiles == raster_pixels(*image).map_values(|p: (u8, u8, u8)| Tile::of_pixel(p)),
    {
        let pixels = image.pixels();
        let mut data: Vec<Tile> = Vec::new();
        let mut i: usize = 0;
        while i < pixels.len()
            invariant
                i <= pixels@.len(),
                data@.len() == i,
                forall|k: int| 0 <= k < i ==> data@[k] == Tile::of_pixel(#[trigger] pixels@[k]),
            decreases pixels@.len() - i,
        {
            data.push(Tile::from(pixels[i]));
            i += 1;
        }
        assert(data@ =~= pixels@.map_values(|p: (u8, u8, u8)| Tile::of_pixel(p)));
        World { data, width: image.width(), height: image.height() }
    }

    /// The width of the map in cells.
    pub fn width(&self) -> (width: u32)
        ensures
            width == self@.width,
    {
        self.width
    }

    /// The height of the map in cells.
    pub fn height(&self) -> (height: u32)
        ensures
            height == self@.height,
    {
        self.height
    }

    /// Looks a cell up by coordinates of any size.
    pub(crate) fn lookup(&self, x: i64, y: i64) -> (tile: Tile)
        requires
            self.wf(),
        ensures
            tile == self@.tile_at(x as int, y as int),
    {
        if x < 0 || y < 0 || x >= self.width as i64 || y >= self.height as i64 {
            return Tile::Outside;
        }
        let column = x as usize;
        let row = y as usize;
        let stride = self.width as usize;
        assert(0 <= row * stride && row * stride + column < self.data.len()) by {
            lemma_index_in_range(stride as int, self.height as int, column as int, row as int);
        }
        self.data[row * stride + column]
    }

    /// The tile of the cell `(x, y)`: the stored tile of a cell within the
    /// map, `Outside` for every other coordinate.
    pub fn tile_at(&self, x: i32, y: i32) -> (tile: Tile)
        requires
            self.wf(),
        ensures
            tile == self@.tile_at(x as int, y as int),
            tile == Tile::Outside <==> !self@.in_bounds(x as int, y as int),
            x < 0 || y < 0 || x >= self@.width || y >= self@.height ==> tile == Tile::Outside,
    {
        proof {
            if self@.in_bounds(x as int, y as int) {
                lemma_index_in_range(self.width as int, self.height as int, x as int, y as int);
            }
        }
        self.lookup(x as i64, y as i64)
    }
}

} // verus!
