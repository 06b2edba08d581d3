use vstd::prelude::*;

verus! {

/// One glyph of a cell's block: its column and row within the block, and the
/// character drawn there.
pub type Glyph = (u32, u32, char);

/// A block of glyphs, indexed by row and then by column. A position that
/// holds `O_C` is transparent.
pub type Block = [[char; 3]; 3];

/// The transparent marker: a position of a block that holds it is not drawn,
/// so that what was drawn there before stays.
pub const O_C: char = '\0';

/// Drawn for a cell beyond the map.
pub const CHAR_UNKNOWN: char = '\u{224B}';

/// The vertical line along an east or west side of a wall.
pub const CHAR_WALL_V: char = '\u{2502}';

/// The horizontal line along a north or south side of a wall.
pub const CHAR_WALL_H: char = '\u{2500}';

/// The inside of a wall.
pub const CHAR_SOLID: char = '\u{2237}';

/// Open floor.
pub const CHAR_AIR: char = ' ';

/// The mark of the player's position.
pub const CHAR_PLAYER: char = '\u{FB4A}';

/// The base layer of a wall.
pub const TILE_WALL: Block = [
    [CHAR_SOLID, CHAR_SOLID, CHAR_SOLID],
    [CHAR_SOLID, CHAR_SOLID, CHAR_SOLID],
    [CHAR_SOLID, CHAR_SOLID, CHAR_SOLID],
];

/// The line along the north side of a wall.
pub const TILE_WALL_O_N: Block = [
    [CHAR_WALL_H, CHAR_WALL_H, CHAR_WALL_H],
    [O_C, O_C, O_C],
    [O_C, O_C, O_C],
];

/// The line along the south side of a wall.
pub const TILE_WALL_O_S: Block = [
    [O_C, O_C, O_C],
    [O_C, O_C, O_C],
    [CHAR_WALL_H, CHAR_WALL_H, CHAR_WALL_H],
];

/// The line along the east side of a wall.
pub const TILE_WALL_O_E: Block = [
    [O_C, O_C, CHAR_WALL_V],
    [O_C, O_C, CHAR_WALL_V],
    [O_C, O_C, CHAR_WALL_V],
];

/// The line along the west side of a wall.
pub const TILE_WALL_O_W: Block = [
    [CHAR_WALL_V, O_C, O_C],
    [CHAR_WALL_V, O_C, O_C],
    [CHAR_WALL_V, O_C, O_C],
];

/// The rounded corners, indexed by row and then by column: the upper left
/// and upper right arcs, then the lower left and lower right ones.
pub const CORNERS: [[char; 2]; 2] = [['\u{256D}', '\u{256E}'], ['\u{2570}', '\u{256F}']];

/// What the `n`-th position of a block contributes when the block is drawn,
/// the positions counted column by column: its glyph, or nothing where the
/// block is transparent.
pub open spec fn block_glyph(block: Block, n: int) -> Seq<Glyph> {
    let x = n / 3;
    let y = n % 3;
    if block[y][x] != O_C {
        seq![(x as u32, y as u32, block[y][x])]
    } else {
        Seq::empty()
    }
}

/// The glyphs of the first `n` positions of a block.
pub open spec fn block_glyphs_upto(block: Block, n: nat) -> Seq<Glyph>
    decreases n,
{
    if n == 0 {
        Seq::empty()
    } else {
        block_glyphs_upto(block, (n - 1) as nat) + block_glyph(block, n - 1)
    }
}

/// The glyphs of a block: one for each position that is not transparent,
/// column by column and each column from top to bottom.
pub open spec fn block_glyphs(block: Block) -> Seq<Glyph> {
    block_glyphs_upto(block, 9)
}

/// The `n`-th glyph of a block filled with one character.
pub open spec fn fill_glyph(ch: char, n: int) -> Glyph {
    ((n / 3) as u32, (n % 3) as u32, ch)
}

/// The glyphs of a block filled with one character: all nine positions,
/// column by column and each column from top to bottom.
pub open spec fn fill_glyphs(ch: char) -> Seq<Glyph> {
    Seq::new(9, |n: int| fill_glyph(ch, n))
}

/// Whether every one of `glyphs` lies within the three columns and three
/// rows of a block.
pub open spec fn in_block(glyphs: Seq<Glyph>) -> bool {
    forall|i: int| 0 <= i < glyphs.len() ==> (#[trigger] glyphs[i]).0 < 3 && glyphs[i].1 < 3
}

proof fn lemma_block_upto_in_block(block: Block, n: nat)
    requires
        n <= 9,
    ensures
        in_block(block_glyphs_upto(block, n)),
    decreases n,
{
    if n > 0 {
        lemma_block_upto_in_block(block, (n - 1) as nat);
    }
}

/// The glyphs of a block lie within the block.
pub proof fn lemma_block_in_block(block: Block)
    ensures
        in_block(block_glyphs(block)),
{
    lemma_block_upto_in_block(block, 9);
}

/// The character that shows at the position `(x, y)` of a block once
/// `glyphs` are drawn in order: that of the last glyph there, or `None` where
/// no glyph lies.
pub open spec fn painted(glyphs: Seq<Glyph>, x: int, y: int) -> Option<char>
    decreases glyphs.len(),
{
    if glyphs.len() == 0 {
        None
    } else if glyphs.last().0 == x && glyphs.last().1 == y {
        Some(glyphs.last().2)
    } else {
        painted(glyphs.drop_last(), x, y)
    }
}

/// What shows after two runs of glyphs are drawn one after the other is what
/// the second run shows, and where that shows nothing, what the first does.
pub proof fn lemma_painted_add(first: Seq<Glyph>, second: Seq<Glyph>, x: int, y: int)
    ensures
        painted(first + second, x, y) == match painted(second, x, y) {
            Some(ch) => Some(ch),
            None => painted(first, x, y),
        },
    decreases second.len(),
{
    if second.len() == 0 {
        assert(first + second =~= first);
    } else {
        assert((first + second).drop_last() =~= first + second.drop_last());
        lemma_painted_add(first, second.drop_last(), x, y);
    }
}

proof fn lemma_block_upto_painted(block: Block, n: nat, x: int, y: int)
    requires
        n <= 9,
        0 <= x < 3,
        0 <= y < 3,
    ensures
        painted(block_glyphs_upto(block, n), x, y) == if 3 * x + y < n && block[y][x] != O_C {
            Some(block[y][x])
        } else {
            None
        },
    decreases n,
{
    if n > 0 {
        lemma_block_upto_painted(block, (n - 1) as nat, x, y);
        lemma_painted_add(
            block_glyphs_upto(block, (n - 1) as nat),
            block_glyph(block, n - 1),
            x,
            y,
        );
        reveal_with_fuel(painted, 2);
    }
}

/// A block that is drawn shows each of its characters at its position, and
/// nothing where it is transparent.
pub proof fn lemma_block_painted(block: Block, x: int, y: int)
    requires
        0 <= x < 3,
        0 <= y < 3,
    ensures
        painted(block_glyphs(block), x, y) == if block[y][x] != O_C {
            Some(block[y][x])
        } else {
            None
        },
{
    lemma_block_upto_painted(block, 9, x, y);
}

proof fn lemma_fill_upto_painted(ch: char, n: nat, x: int, y: int)
    requires
        n <= 9,
        0 <= x < 3,
        0 <= y < 3,
    ensures
        painted(fill_glyphs(ch).take(n as int), x, y) == if 3 * x + y < n {
            Some(ch)
        } else {
            None
        },
    decreases n,
{
    if n > 0 {
        lemma_fill_upto_painted(ch, (n - 1) as nat, x, y);
        assert(fill_glyphs(ch).take(n as int).drop_last() =~= fill_glyphs(ch).take(n - 1));
    }
}

/// A filled block shows its character at every position.
pub proof fn lemma_fill_painted(ch: char, x: int, y: int)
    requires
        0 <= x < 3,
        0 <= y < 3,
    ensures
        painted(fill_glyphs(ch), x, y) == Some(ch),
{
    lemma_fill_upto_painted(ch, 9, x, y);
    assert(fill_glyphs(ch).take(9) =~= fill_glyphs(ch));
}

/// Appends the glyphs of a block to `out`.
pub(crate) fn push_tile(tile: &Block, out: &mut Vec<Glyph>)
    ensures
        final(out)@ == old(out)@ + block_glyphs(*tile),
{
    let mut x: usize = 0;
    while x < 3
        invariant
            x <= 3,
            out@ == old(out)@ + block_glyphs_upto(*tile, (3 * x) as nat),
        decreases 3 - x,
    {
        let mut y: usize = 0;
        while y < 3
            invariant
                x < 3,
                y <= 3,
                out@ == old(out)@ + block_glyphs_upto(*tile, (3 * x + y) as nat),
            decreases 3 - y,
        {
            let ghost before = out@;
            if tile[y][x] != O_C {
                out.push((x as u32, y as u32, tile[y][x]));
            }
            assert(out@ == before + block_glyph(*tile, 3 * x + y));
            assert(out@ == old(out)@ + block_glyphs_upto(*tile, (3 * x + y + 1) as nat));
            y += 1;
        }
        x += 1;
    }
}

/// The glyphs of a block that are not transparent, column by column.
pub fn draw_tile(tile: &Block) -> (glyphs: Vec<Glyph>)
    ensures
        glyphs@ == block_glyphs(*tile),
        in_block(glyphs@),
{
    proof {
        lemma_block_in_block(*tile);
    }
    let mut glyphs: Vec<Glyph> = Vec::new();
    push_tile(tile, &mut glyphs);
    glyphs
}

/// The nine glyphs of a block filled with `tile`, column by column.
pub fn fill_tile(tile: char) -> (glyphs: Vec<Glyph>)
    ensures
        glyphs@ == fill_glyphs(tile),
        in_block(glyphs@),
{
    let mut glyphs: Vec<Glyph> = Vec::new();
    let mut x: u32 = 0;
    while x < 3
        invariant
            x <= 3,
            glyphs@.len() == 3 * x,
            forall|n: int| 0 <= n < 3 * x ==> glyphs@[n] == fill_glyph(tile, n),
        decreases 3 - x,
    {
        let mut y: u32 = 0;
        while y < 3
            invariant
                x < 3,
                y <= 3,
                glyphs@.len() == 3 * x + y,
                forall|n: int| 0 <= n < 3 * x + y ==> glyphs@[n] == fill_glyph(tile, n),
            decreases 3 - y,
        {
            glyphs.push((x, y, tile));
            y += 1;
        }
        x += 1;
    }
    glyphs
}

} // verus!
