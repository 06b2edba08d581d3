use crate::glyph::block_glyphs;
use crate::glyph::block_glyphs_upto;
use crate::glyph::fill_glyphs;
use crate::glyph::fill_tile;
use crate::glyph::in_block;
use crate::glyph::lemma_block_in_block;
use crate::glyph::lemma_block_painted;
use crate::glyph::lemma_fill_painted;
use crate::glyph::lemma_painted_add;
use crate::glyph::painted;
use crate::glyph::push_tile;
use crate::glyph::Block;
use crate::glyph::Glyph;
use crate::glyph::CHAR_AIR;
use crate::glyph::CHAR_SOLID;
use crate::glyph::CHAR_UNKNOWN;
use crate::glyph::CHAR_WALL_H;
use crate::glyph::CHAR_WALL_V;
use crate::glyph::CORNERS;
use crate::glyph::TILE_WALL;
use crate::glyph::TILE_WALL_O_E;
use crate::glyph::TILE_WALL_O_N;
use crate::glyph::TILE_WALL_O_S;
use crate::glyph::TILE_WALL_O_W;
use crate::tile::Tile;
use crate::world::World;
use crate::world::WorldView;
use vstd::prelude::*;

verus! {

impl WorldView {
    /// Whether the cell `(x, y)` is open floor. A cell beyond the map is not.
    pub open spec fn is_air(self, x: int, y: int) -> bool {
        self.tile_at(x, y) == Tile::Air
    }

    /// The code of the corner `(a, b)` of the cell `(x, y)`, where `a` is 0
    /// for west and 1 for east and `b` is 0 for north and 1 for south: 1 if
    /// the neighbour across the corner's vertical side is open, plus 2 if the
    /// one across its horizontal side is, plus 4 if the diagonal one is.
    pub open spec fn corner_pattern(self, x: int, y: int, a: int, b: int) -> int {
        let x_shoot = 2 * a - 1;
        let y_shoot = 2 * b - 1;
        (if self.is_air(x + x_shoot, y) { 1int } else { 0 })
            + (if self.is_air(x, y + y_shoot) { 2int } else { 0 })
            + (if self.is_air(x + x_shoot, y + y_shoot) { 4int } else { 0 })
    }

    /// The glyph drawn over the corner `(a, b)` of the wall at `(x, y)`, if
    /// any.
    ///
    /// Where only the diagonal neighbour is open, the wall turns round the
    /// open cell, and the arc is that of the opposite corner. Where both
    /// sides are open, the wall ends in this corner, and the arc is the
    /// corner's own. Every other corner keeps what the sides drew.
    pub open spec fn corner_glyph(self, x: int, y: int, a: int, b: int) -> Option<char> {
        let pattern = self.corner_pattern(x, y, a, b);
        if pattern == 4 {
            Some(CORNERS[1 - b][1 - a])
        } else if pattern == 3 || pattern == 7 {
            Some(CORNERS[b][a])
        } else {
            None
        }
    }

    /// What the corner `(a, b)` adds to the glyphs of the wall at `(x, y)`.
    pub open spec fn corner_glyphs(self, x: int, y: int, a: int, b: int) -> Seq<Glyph> {
        match self.corner_glyph(x, y, a, b) {
            Some(ch) => seq![((2 * a) as u32, (2 * b) as u32, ch)],
            None => Seq::empty(),
        }
    }

    /// What a side adds to the glyphs of a wall: its line where the
    /// neighbour `(x, y)` across it is open, nothing otherwise.
    pub open spec fn side_glyphs(self, x: int, y: int, line: Block) -> Seq<Glyph> {
        if self.is_air(x, y) {
            block_glyphs(line)
        } else {
            Seq::empty()
        }
    }

    /// The glyphs of the wall at `(x, y)`: the solid base, then the lines of
    /// the north, south, east and west sides that face open floor, then the
    /// arcs of the north-west, south-west, north-east and south-east corners.
    pub open spec fn wall_glyphs(self, x: int, y: int) -> Seq<Glyph> {
        block_glyphs(TILE_WALL)
            + self.side_glyphs(x, y - 1, TILE_WALL_O_N)
            + self.side_glyphs(x, y + 1, TILE_WALL_O_S)
            + self.side_glyphs(x + 1, y, TILE_WALL_O_E)
            + self.side_glyphs(x - 1, y, TILE_WALL_O_W)
            + self.corner_glyphs(x, y, 0, 0)
            + self.corner_glyphs(x, y, 0, 1)
            + self.corner_glyphs(x, y, 1, 0)
            + self.corner_glyphs(x, y, 1, 1)
    }

    /// The character that the cell `(x, y)` shows at the position `(dx, dy)`
    /// of its block.
    ///
    /// Open floor is blank and the outside is unknown. A wall shows the arc of
    /// a corner where the corner has one; elsewhere along a side that faces
    /// open floor it shows that side's line; everywhere else it is solid.
    pub open spec fn glyph_at(self, x: int, y: int, dx: int, dy: int) -> char {
        match self.tile_at(x, y) {
            Tile::Air => CHAR_AIR,
            Tile::Outside => CHAR_UNKNOWN,
            Tile::Wall => {
                if dx != 1 && dy != 1 && self.corner_glyph(x, y, dx / 2, dy / 2) is Some {
                    self.corner_glyph(x, y, dx / 2, dy / 2)->0
                } else if dx == 0 && self.is_air(x - 1, y) {
                    CHAR_WALL_V
                } else if dx == 2 && self.is_air(x + 1, y) {
                    CHAR_WALL_V
                } else if dy == 0 && self.is_air(x, y - 1) {
                    CHAR_WALL_H
                } else if dy == 2 && self.is_air(x, y + 1) {
                    CHAR_WALL_H
                } else {
                    CHAR_SOLID
                }
            },
        }
    }

    /// The glyphs of the cell `(x, y)`, in the order in which they are to be
    /// drawn: a later glyph covers an earlier one at the same position.
    pub open spec fn draw(self, x: int, y: int) -> Seq<Glyph> {
        match self.tile_at(x, y) {
            Tile::Wall => self.wall_glyphs(x, y),
            Tile::Air => fill_glyphs(CHAR_AIR),
            Tile::Outside => fill_glyphs(CHAR_UNKNOWN),
        }
    }
}

impl World {
    /// Appends a side's line to `out` where the neighbour `(x, y)` is open.
    fn push_side(&self, x: i64, y: i64, line: &Block, out: &mut Vec<Glyph>)
        requires
            self.wf(),
        ensures
            final(out)@ == old(out)@ + self@.side_glyphs(x as int, y as int, *line),
    {
        if let Tile::Air = self.lookup(x, y) {
            push_tile(line, out);
        }
    }

    /// The glyphs of the cell `(x, y)` with coordinates of any size.
    pub(crate) fn draw_at(&self, x: i64, y: i64) -> (glyphs: Vec<Glyph>)
        requires
            self.wf(),
            i64::MIN < x < i64::MAX,
            i64::MIN < y < i64::MAX,
        ensures
            glyphs@ == self@.draw(x as int, y as int),
    {
        let tile = self.lookup(x, y);
        if let Tile::Wall = tile {
            let mut glyphs: Vec<Glyph> = Vec::new();
            push_tile(&TILE_WALL, &mut glyphs);
            self.push_side(x, y - 1, &TILE_WALL_O_N, &mut glyphs);
            self.push_side(x, y + 1, &TILE_WALL_O_S, &mut glyphs);
            self.push_side(x + 1, y, &TILE_WALL_O_E, &mut glyphs);
            self.push_side(x - 1, y, &TILE_WALL_O_W, &mut glyphs);
            let ghost sides = glyphs@;
            let mut a: u8 = 0;
            while a < 2
                invariant
                    self.wf(),
                    i64::MIN < x < i64::MAX,
                    i64::MIN < y < i64::MAX,
                    a <= 2,
                    a == 0 ==> glyphs@ == sides,
                    a == 1 ==> glyphs@ == sides + self@.corner_glyphs(x as int, y as int, 0, 0)
                        + self@.corner_glyphs(x as int, y as int, 0, 1),
                    a == 2 ==> glyphs@ == sides + self@.corner_glyphs(x as int, y as int, 0, 0)
                        + self@.corner_glyphs(x as int, y as int, 0, 1)
                        + self@.corner_glyphs(x as int, y as int, 1, 0)
                        + self@.corner_glyphs(x as int, y as int, 1, 1),
                decreases 2 - a,
            {
                let ghost column = glyphs@;
                let mut b: u8 = 0;
                while b < 2
                    invariant
                        self.wf(),
                        i64::MIN < x < i64::MAX,
                        i64::MIN < y < i64::MAX,
                        a < 2,
                        b <= 2,
                        b == 0 ==> glyphs@ == column,
                        b == 1 ==> glyphs@ == column + self@.corner_glyphs(
                            x as int,
                            y as int,
                            a as int,
                            0,
                        ),
                        b == 2 ==> glyphs@ == column + self@.corner_glyphs(
                            x as int,
                            y as int,
                            a as int,
                            0,
                        ) + self@.corner_glyphs(x as int, y as int, a as int, 1),
                    decreases 2 - b,
                {
                    let ghost before = glyphs@;
                    let x_shoot: i64 = a as i64 * 2 - 1;
                    let y_shoot: i64 = b as i64 * 2 - 1;
                    let check_x = self.lookup(x + x_shoot, y) == Tile::Air;
                    let check_xy = self.lookup(x + x_shoot, y + y_shoot) == Tile::Air;
                    let check_y = self.lookup(x, y + y_shoot) == Tile::Air;
                    let val: u8 = (if check_x { 1u8 } else { 0u8 })
                        + (if check_y { 2u8 } else { 0u8 })
                        + (if check_xy { 4u8 } else { 0u8 });
                    assert(val == self@.corner_pattern(x as int, y as int, a as int, b as int));
                    if val == 4 {
                        glyphs.push(
                            (a as u32 * 2, b as u32 * 2, CORNERS[1 - b as usize][1 - a as usize]),
                        );
                    }
                    if val == 3 || val == 7 {
                        glyphs.push((a as u32 * 2, b as u32 * 2, CORNERS[b as usize][a as usize]));
                    }
                    assert(glyphs@ == before + self@.corner_glyphs(
                        x as int,
                        y as int,
                        a as int,
                        b as int,
                    ));
                    b += 1;
                }
                a += 1;
            }
            glyphs
        } else if let Tile::Air = tile {
            fill_tile(CHAR_AIR)
        } else {
            fill_tile(CHAR_UNKNOWN)
        }
    }

    /// The glyphs of the cell `(x, y)`, in the order in which they are to be
    /// drawn.
    ///
    /// Open floor and the outside are filled with one character each. A wall
    /// is filled solid; over that come the lines of the sides that face open
    /// floor, and over those the arcs of its corners.
    pub fn draw(&self, x: i32, y: i32) -> (glyphs: Vec<Glyph>)
        requires
            self.wf(),
        ensures
            glyphs@ == self@.draw(x as int, y as int),
            in_block(glyphs@),
    {
        proof {
            lemma_draw_in_block(self@, x as int, y as int);
        }
        self.draw_at(x as i64, y as i64)
    }
}

impl WorldView {
    /// Whether none of the eight neighbours of `(x, y)` is open floor.
    pub open spec fn enclosed(self, x: int, y: int) -> bool {
        forall|dx: int, dy: int|
            -1 <= dx <= 1 && -1 <= dy <= 1 && (dx != 0 || dy != 0) ==> !#[trigger] self.is_air(
                x + dx,
                y + dy,
            )
    }

    /// Whether the neighbour `(x + dx, y + dy)` is the only one of the eight
    /// neighbours of `(x, y)` that is open floor.
    pub open spec fn only_open(self, x: int, y: int, dx: int, dy: int) -> bool {
        &&& self.is_air(x + dx, y + dy)
        &&& forall|ex: int, ey: int|
            -1 <= ex <= 1 && -1 <= ey <= 1 && (ex != 0 || ey != 0) && (ex != dx || ey != dy)
                ==> !#[trigger] self.is_air(x + ex, y + ey)
    }
}

/// Names the eight neighbours of `(x, y)`, so that a statement about all of
/// them can be used of each.
proof fn lemma_neighbours(world: WorldView, x: int, y: int)
    ensures
        world.is_air(x - 1, y - 1) == world.is_air(x + (-1), y + (-1)),
        world.is_air(x, y - 1) == world.is_air(x + 0, y + (-1)),
        world.is_air(x + 1, y - 1) == world.is_air(x + 1, y + (-1)),
        world.is_air(x - 1, y) == world.is_air(x + (-1), y + 0),
        world.is_air(x + 1, y) == world.is_air(x + 1, y + 0),
        world.is_air(x - 1, y + 1) == world.is_air(x + (-1), y + 1),
        world.is_air(x, y + 1) == world.is_air(x + 0, y + 1),
        world.is_air(x + 1, y + 1) == world.is_air(x + 1, y + 1),
{
}

/// A block filled with the solid glyph is what the base layer of a wall
/// draws.
pub proof fn lemma_wall_base_is_solid_fill()
    ensures
        block_glyphs(TILE_WALL) == fill_glyphs(CHAR_SOLID),
{
    reveal_with_fuel(block_glyphs_upto, 10);
    assert(block_glyphs(TILE_WALL) =~= fill_glyphs(CHAR_SOLID));
}

/// The line of each side lies along that side: three glyphs, from left to
/// right or from top to bottom.
pub proof fn lemma_side_lines()
    ensures
        block_glyphs(TILE_WALL_O_N) == seq![
            (0u32, 0u32, CHAR_WALL_H),
            (1u32, 0u32, CHAR_WALL_H),
            (2u32, 0u32, CHAR_WALL_H),
        ],
        block_glyphs(TILE_WALL_O_S) == seq![
            (0u32, 2u32, CHAR_WALL_H),
            (1u32, 2u32, CHAR_WALL_H),
            (2u32, 2u32, CHAR_WALL_H),
        ],
        block_glyphs(TILE_WALL_O_E) == seq![
            (2u32, 0u32, CHAR_WALL_V),
            (2u32, 1u32, CHAR_WALL_V),
            (2u32, 2u32, CHAR_WALL_V),
        ],
        block_glyphs(TILE_WALL_O_W) == seq![
            (0u32, 0u32, CHAR_WALL_V),
            (0u32, 1u32, CHAR_WALL_V),
            (0u32, 2u32, CHAR_WALL_V),
        ],
{
    reveal_with_fuel(block_glyphs_upto, 10);
    assert(block_glyphs(TILE_WALL_O_N) =~= seq![
        (0u32, 0u32, CHAR_WALL_H),
        (1u32, 0u32, CHAR_WALL_H),
        (2u32, 0u32, CHAR_WALL_H),
    ]);
    assert(block_glyphs(TILE_WALL_O_S) =~= seq![
        (0u32, 2u32, CHAR_WALL_H),
        (1u32, 2u32, CHAR_WALL_H),
        (2u32, 2u32, CHAR_WALL_H),
    ]);
    assert(block_glyphs(TILE_WALL_O_E) =~= seq![
        (2u32, 0u32, CHAR_WALL_V),
        (2u32, 1u32, CHAR_WALL_V),
        (2u32, 2u32, CHAR_WALL_V),
    ]);
    assert(block_glyphs(TILE_WALL_O_W) =~= seq![
        (0u32, 0u32, CHAR_WALL_V),
        (0u32, 1u32, CHAR_WALL_V),
        (0u32, 2u32, CHAR_WALL_V),
    ]);
}

/// A wall none of whose eight neighbours is open floor draws the solid fill
/// and nothing else: no line and no arc.
pub proof fn lemma_enclosed_wall_is_solid(world: WorldView, x: int, y: int)
    requires
        world.tile_at(x, y) == Tile::Wall,
        world.enclosed(x, y),
    ensures
        world.draw(x, y) == fill_glyphs(CHAR_SOLID),
        forall|a: int, b: int| 0 <= a <= 1 && 0 <= b <= 1 ==> world.corner_glyph(x, y, a, b) is None,
{
    lemma_neighbours(world, x, y);
    lemma_wall_base_is_solid_fill();
    assert(world.draw(x, y) =~= block_glyphs(TILE_WALL));
}

/// A wall whose only open neighbour lies across one of its four sides draws
/// the solid fill and then that side's line, and no arc.
pub proof fn lemma_one_open_side(world: WorldView, x: int, y: int, dx: int, dy: int)
    requires
        world.tile_at(x, y) == Tile::Wall,
        (dx == 0 && (dy == -1 || dy == 1)) || (dy == 0 && (dx == -1 || dx == 1)),
        world.only_open(x, y, dx, dy),
    ensures
        world.draw(x, y) == fill_glyphs(CHAR_SOLID) + block_glyphs(
            if dy == -1 {
                TILE_WALL_O_N
            } else if dy == 1 {
                TILE_WALL_O_S
            } else if dx == 1 {
                TILE_WALL_O_E
            } else {
                TILE_WALL_O_W
            },
        ),
        forall|a: int, b: int| 0 <= a <= 1 && 0 <= b <= 1 ==> world.corner_glyph(x, y, a, b) is None,
{
    lemma_neighbours(world, x, y);
    lemma_wall_base_is_solid_fill();
    let line = if dy == -1 {
        TILE_WALL_O_N
    } else if dy == 1 {
        TILE_WALL_O_S
    } else if dx == 1 {
        TILE_WALL_O_E
    } else {
        TILE_WALL_O_W
    };
    assert(world.draw(x, y) =~= block_glyphs(TILE_WALL) + block_glyphs(line));
}

/// Where the neighbours across both sides of a corner are open, the corner
/// gets its own arc, whatever the diagonal neighbour is. So a wall with open
/// floor to its north and east and a diagonal neighbour that is not open has
/// the code 3 in its north-east corner, and the upper right arc there.
pub proof fn lemma_inner_corner(world: WorldView, x: int, y: int, a: int, b: int)
    requires
        0 <= a <= 1,
        0 <= b <= 1,
        world.is_air(x + (2 * a - 1), y),
        world.is_air(x, y + (2 * b - 1)),
    ensures
        world.corner_pattern(x, y, a, b) == 3 || world.corner_pattern(x, y, a, b) == 7,
        !world.is_air(x + (2 * a - 1), y + (2 * b - 1)) ==> world.corner_pattern(x, y, a, b) == 3,
        world.corner_glyph(x, y, a, b) == Some(CORNERS[b][a]),
        world.corner_glyphs(x, y, a, b) == seq![((2 * a) as u32, (2 * b) as u32, CORNERS[b][a])],
{
}

/// A corner with exactly one open side gets no arc, and neither does a
/// corner with no open side whose diagonal neighbour is not open either.
pub proof fn lemma_no_corner(world: WorldView, x: int, y: int, a: int, b: int)
    requires
        0 <= a <= 1,
        0 <= b <= 1,
        world.is_air(x + (2 * a - 1), y) != world.is_air(x, y + (2 * b - 1)) || (!world.is_air(
            x + (2 * a - 1),
            y,
        ) && !world.is_air(x, y + (2 * b - 1)) && !world.is_air(
            x + (2 * a - 1),
            y + (2 * b - 1),
        )),
    ensures
        world.corner_glyph(x, y, a, b) is None,
        world.corner_glyphs(x, y, a, b) == Seq::<Glyph>::empty(),
{
}

/// Where only the diagonal neighbour of a corner is open, the code is 4 and
/// the corner gets the arc of the opposite corner.
pub proof fn lemma_outer_corner(world: WorldView, x: int, y: int, a: int, b: int)
    requires
        0 <= a <= 1,
        0 <= b <= 1,
        !world.is_air(x + (2 * a - 1), y),
        !world.is_air(x, y + (2 * b - 1)),
        world.is_air(x + (2 * a - 1), y + (2 * b - 1)),
    ensures
        world.corner_pattern(x, y, a, b) == 4,
        world.corner_glyph(x, y, a, b) == Some(CORNERS[1 - b][1 - a]),
        world.corner_glyphs(x, y, a, b) == seq![
            ((2 * a) as u32, (2 * b) as u32, CORNERS[1 - b][1 - a]),
        ],
{
}

/// A wall whose only open neighbour is the south-western one draws the solid
/// fill and then, in its lower left corner, the upper right arc.
pub proof fn lemma_south_west_diagonal(world: WorldView, x: int, y: int)
    requires
        world.tile_at(x, y) == Tile::Wall,
        world.only_open(x, y, -1, 1),
    ensures
        world.corner_pattern(x, y, 0, 1) == 4,
        world.draw(x, y) == fill_glyphs(CHAR_SOLID).push((0u32, 2u32, CORNERS[0][1])),
{
    lemma_neighbours(world, x, y);
    lemma_wall_base_is_solid_fill();
    assert(world.draw(x, y) =~= block_glyphs(TILE_WALL).push((0u32, 2u32, CORNERS[0][1])));
}

/// What a cell draws depends on the cell and its eight neighbours alone: two
/// cells whose neighbourhoods agree draw the same glyphs, in whichever maps
/// they lie.
pub proof fn lemma_draw_is_local(
    world: WorldView,
    x: int,
    y: int,
    other: WorldView,
    other_x: int,
    other_y: int,
)
    requires
        forall|dx: int, dy: int|
            -1 <= dx <= 1 && -1 <= dy <= 1 ==> #[trigger] world.tile_at(x + dx, y + dy)
                == other.tile_at(other_x + dx, other_y + dy),
    ensures
        world.draw(x, y) == other.draw(other_x, other_y),
{
    assert(world.tile_at(x + 0, y + 0) == other.tile_at(other_x + 0, other_y + 0));
    assert(world.tile_at(x + (-1), y + (-1)) == other.tile_at(other_x + (-1), other_y + (-1)));
    assert(world.tile_at(x + 0, y + (-1)) == other.tile_at(other_x + 0, other_y + (-1)));
    assert(world.tile_at(x + 1, y + (-1)) == other.tile_at(other_x + 1, other_y + (-1)));
    assert(world.tile_at(x + (-1), y + 0) == other.tile_at(other_x + (-1), other_y + 0));
    assert(world.tile_at(x + 1, y + 0) == other.tile_at(other_x + 1, other_y + 0));
    assert(world.tile_at(x + (-1), y + 1) == other.tile_at(other_x + (-1), other_y + 1));
    assert(world.tile_at(x + 0, y + 1) == other.tile_at(other_x + 0, other_y + 1));
    assert(world.tile_at(x + 1, y + 1) == other.tile_at(other_x + 1, other_y + 1));
}

/// Every glyph of a cell lies within the cell's block.
pub proof fn lemma_draw_in_block(world: WorldView, x: int, y: int)
    ensures
        in_block(world.draw(x, y)),
{
    lemma_block_in_block(TILE_WALL);
    lemma_block_in_block(TILE_WALL_O_N);
    lemma_block_in_block(TILE_WALL_O_S);
    lemma_block_in_block(TILE_WALL_O_E);
    lemma_block_in_block(TILE_WALL_O_W);
}

/// What a corner of a wall shows once its glyphs are drawn: its arc at its
/// own position, if it has one, and nothing anywhere else.
proof fn lemma_corner_painted(world: WorldView, x: int, y: int, a: int, b: int, dx: int, dy: int)
    requires
        0 <= a <= 1,
        0 <= b <= 1,
    ensures
        painted(world.corner_glyphs(x, y, a, b), dx, dy) == if dx == 2 * a && dy == 2 * b {
            world.corner_glyph(x, y, a, b)
        } else {
            None
        },
{
    reveal_with_fuel(painted, 2);
}

/// Once the glyphs of a cell are drawn in their order, every position of its
/// block shows the character that `glyph_at` names: the order of the layers
/// leaves no position in doubt, and none is left out.
pub proof fn lemma_draw_paints(world: WorldView, x: int, y: int, dx: int, dy: int)
    requires
        0 <= dx < 3,
        0 <= dy < 3,
    ensures
        painted(world.draw(x, y), dx, dy) == Some(world.glyph_at(x, y, dx, dy)),
{
    match world.tile_at(x, y) {
        Tile::Air => {
            lemma_fill_painted(CHAR_AIR, dx, dy);
        },
        Tile::Outside => {
            lemma_fill_painted(CHAR_UNKNOWN, dx, dy);
        },
        Tile::Wall => {
            let base = block_glyphs(TILE_WALL);
            let north = base + world.side_glyphs(x, y - 1, TILE_WALL_O_N);
            let south = north + world.side_glyphs(x, y + 1, TILE_WALL_O_S);
            let east = south + world.side_glyphs(x + 1, y, TILE_WALL_O_E);
            let west = east + world.side_glyphs(x - 1, y, TILE_WALL_O_W);
            let north_west = west + world.corner_glyphs(x, y, 0, 0);
            let south_west = north_west + world.corner_glyphs(x, y, 0, 1);
            let north_east = south_west + world.corner_glyphs(x, y, 1, 0);
            let south_east = north_east + world.corner_glyphs(x, y, 1, 1);
            assert(world.draw(x, y) == south_east);
            lemma_block_painted(TILE_WALL, dx, dy);
            lemma_block_painted(TILE_WALL_O_N, dx, dy);
            lemma_block_painted(TILE_WALL_O_S, dx, dy);
            lemma_block_painted(TILE_WALL_O_E, dx, dy);
            lemma_block_painted(TILE_WALL_O_W, dx, dy);
            lemma_painted_add(base, world.side_glyphs(x, y - 1, TILE_WALL_O_N), dx, dy);
            lemma_painted_add(north, world.side_glyphs(x, y + 1, TILE_WALL_O_S), dx, dy);
            lemma_painted_add(south, world.side_glyphs(x + 1, y, TILE_WALL_O_E), dx, dy);
            lemma_painted_add(east, world.side_glyphs(x - 1, y, TILE_WALL_O_W), dx, dy);
            lemma_painted_add(west, world.corner_glyphs(x, y, 0, 0), dx, dy);
            lemma_painted_add(north_west, world.corner_glyphs(x, y, 0, 1), dx, dy);
            lemma_painted_add(south_west, world.corner_glyphs(x, y, 1, 0), dx, dy);
            lemma_painted_add(north_east, world.corner_glyphs(x, y, 1, 1), dx, dy);
            lemma_corner_painted(world, x, y, 0, 0, dx, dy);
            lemma_corner_painted(world, x, y, 0, 1, dx, dy);
            lemma_corner_painted(world, x, y, 1, 0, dx, dy);
            lemma_corner_painted(world, x, y, 1, 1, dx, dy);
            assert(painted(Seq::<Glyph>::empty(), dx, dy) is None);
        },
    }
}

} // verus!
