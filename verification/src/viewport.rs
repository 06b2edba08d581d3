use crate::glyph::Glyph;
use crate::glyph::CHAR_PLAYER;
use crate::world::World;
use crate::world::WorldView;
use vstd::prelude::*;

verus! {

/// One glyph written to the screen: its row, its column, and the character.
pub type ScreenGlyph = (i32, i32, char);

/// Half of `a`, rounded towards zero.
pub open spec fn half(a: int) -> int {
    if a >= 0 {
        a / 2
    } else {
        -((-a) / 2)
    }
}

/// The mathematical model of a viewport: its scroll position in glyphs (a
/// third of a cell each) and its extent in cells.
pub struct ViewportView {
    pub x: int,
    pub y: int,
    pub width: nat,
    pub height: nat,
}

impl ViewportView {
    /// The viewport shows at least one cell each way, and its extent in
    /// glyphs fits the screen's coordinates.
    pub open spec fn wf(self) -> bool {
        &&& 0 < self.width
        &&& 0 < self.height
        &&& 3 * self.width <= i32::MAX
        &&& 3 * self.height <= i32::MAX
    }

    /// The viewport after a scroll by `dx` glyphs to the right and `dy` down.
    pub open spec fn moved_by(self, dx: int, dy: int) -> ViewportView {
        ViewportView { x: self.x + dx, y: self.y + dy, ..self }
    }

    /// How many glyphs of its leftmost column of cells the scroll position
    /// cuts off: between 0 and 2, on either side of the origin.
    pub open spec fn subtile_x(self) -> int {
        self.x % 3
    }

    /// How many glyphs of its topmost row of cells the scroll position cuts
    /// off.
    pub open spec fn subtile_y(self) -> int {
        self.y % 3
    }

    /// The map column of the viewport's leftmost cells: the scroll position
    /// in whole cells, rounded down.
    pub open spec fn tile_x(self) -> int {
        self.x / 3
    }

    /// The map row of the viewport's topmost cells.
    pub open spec fn tile_y(self) -> int {
        self.y / 3
    }

    /// The screen column at which the viewport starts when it is centred on
    /// a screen of `screen_cols` columns.
    pub open spec fn origin_x(self, screen_cols: int) -> int {
        half(screen_cols) - half(3 * self.width as int)
    }

    /// The screen row at which the viewport starts when it is centred on a
    /// screen of `screen_rows` rows.
    pub open spec fn origin_y(self, screen_rows: int) -> int {
        half(screen_rows) - half(3 * self.height as int)
    }

    /// The screen column of a glyph of the cell in column `cx` of the
    /// viewport.
    pub open spec fn screen_col(self, screen_cols: int, cx: int, glyph: Glyph) -> int {
        self.origin_x(screen_cols) + 3 * cx + glyph.0 - self.subtile_x()
    }

    /// The screen row of a glyph of the cell in row `cy` of the viewport.
    pub open spec fn screen_row(self, screen_rows: int, cy: int, glyph: Glyph) -> int {
        self.origin_y(screen_rows) + 3 * cy + glyph.1 - self.subtile_y()
    }

    /// Whether a screen position may be written: row 0 and column 0 are left
    /// alone, and so is everything from the viewport's extent on.
    pub open spec fn shows(self, row: int, col: int) -> bool {
        0 < col < 3 * self.width && 0 < row < 3 * self.height
    }

    /// What one glyph of the cell `(cx, cy)` of the viewport writes: itself
    /// at its screen position, or nothing where that position is clipped.
    pub open spec fn glyph_writes(
        self,
        screen_rows: int,
        screen_cols: int,
        cx: int,
        cy: int,
        glyph: Glyph,
    ) -> Seq<ScreenGlyph> {
        let row = self.screen_row(screen_rows, cy, glyph);
        let col = self.screen_col(screen_cols, cx, glyph);
        if self.shows(row, col) {
            seq![(row as i32, col as i32, glyph.2)]
        } else {
            Seq::empty()
        }
    }

    /// What the first `n` of a cell's glyphs write.
    pub open spec fn glyphs_writes(
        self,
        screen_rows: int,
        screen_cols: int,
        cx: int,
        cy: int,
        glyphs: Seq<Glyph>,
        n: nat,
    ) -> Seq<ScreenGlyph>
        decreases n,
    {
        if n == 0 {
            Seq::empty()
        } else {
            self.glyphs_writes(screen_rows, screen_cols, cx, cy, glyphs, (n - 1) as nat)
                + self.glyph_writes(screen_rows, screen_cols, cx, cy, glyphs[n - 1])
        }
    }

    /// What the cell `(cx, cy)` of the viewport writes: the glyphs of the map
    /// cell that it shows, in their order, each at its screen position, less
    /// those that are clipped.
    pub open spec fn cell_writes(
        self,
        world: WorldView,
        screen_rows: int,
        screen_cols: int,
        cx: int,
        cy: int,
    ) -> Seq<ScreenGlyph> {
        let glyphs = world.draw(cx + self.tile_x(), cy + self.tile_y());
        self.glyphs_writes(screen_rows, screen_cols, cx, cy, glyphs, glyphs.len())
    }

    /// What the first `n` cells of column `cx` of the viewport write, from
    /// the top.
    pub open spec fn column_writes(
        self,
        world: WorldView,
        screen_rows: int,
        screen_cols: int,
        cx: int,
        n: nat,
    ) -> Seq<ScreenGlyph>
        decreases n,
    {
        if n == 0 {
            Seq::empty()
        } else {
            self.column_writes(world, screen_rows, screen_cols, cx, (n - 1) as nat)
                + self.cell_writes(world, screen_rows, screen_cols, cx, n - 1)
        }
    }

    /// What the first `n` columns of the viewport write, from the left. A
    /// column has one cell more than the viewport is high: the scroll
    /// position may cut the topmost cells, and the cells below then show in
    /// part.
    pub open spec fn world_writes(
        self,
        world: WorldView,
        screen_rows: int,
        screen_cols: int,
        n: nat,
    ) -> Seq<ScreenGlyph>
        decreases n,
    {
        if n == 0 {
            Seq::empty()
        } else {
            self.world_writes(world, screen_rows, screen_cols, (n - 1) as nat)
                + self.column_writes(world, screen_rows, screen_cols, n - 1, self.height + 1)
        }
    }

    /// The mark of the player's position, at the middle of the viewport.
    pub open spec fn player(self) -> ScreenGlyph {
        ((self.height / 2 * 3) as i32, (self.width / 2 * 3) as i32, CHAR_PLAYER)
    }

    /// All that one frame writes, in order: the cells of the viewport column
    /// by column, one column more than the viewport is wide, and then the
    /// mark of the player's position.
    pub open spec fn frame(self, world: WorldView, screen_rows: int, screen_cols: int) -> Seq<
        ScreenGlyph,
    > {
        self.world_writes(world, screen_rows, screen_cols, self.width + 1).push(self.player())
    }
}

/// A window onto the map that scrolls by single glyphs.
pub struct Viewport {
    x: i32,
    y: i32,
    width: u32,
    height: u32,
}

impl View for Viewport {
    type V = ViewportView;

    closed spec fn view(&self) -> ViewportView {
        ViewportView {
            x: self.x as int,
            y: self.y as int,
            width: self.width as nat,
            height: self.height as nat,
        }
    }
}

/// Half of `a`, rounded towards zero.
fn halve(a: i64) -> (h: i64)
    ensures
        h == half(a as int),
{
    a / 2
}

impl Viewport {
    /// The invariant of a viewport.
    pub open spec fn wf(&self) -> bool {
        self@.wf()
    }

    /// Makes a viewport of `width` by `height` cells, scrolled to `(x, y)`.
    pub fn new(x: i32, y: i32, width: u32, height: u32) -> (viewport: Viewport)
        requires
            0 < width,
            0 < height,
            3 * width <= i32::MAX,
            3 * height <= i32::MAX,
        ensures
            viewport.wf(),
            viewport@ == (ViewportView {
                x: x as int,
                y: y as int,
                width: width as nat,
                height: height as nat,
            }),
    {
        Viewport { x, y, width, height }
    }

    /// The scroll position, in glyphs to the right of the map's left edge.
    pub fn scroll_x(&self) -> (x: i32)
        ensures
            x == self@.x,
    {
        self.x
    }

    /// The scroll position, in glyphs below the map's top edge.
    pub fn scroll_y(&self) -> (y: i32)
        ensures
            y == self@.y,
    {
        self.y
    }

    /// The width of the viewport in cells.
    pub fn width(&self) -> (width: u32)
        ensures
            width == self@.width,
    {
        self.width
    }

    /// The height of the viewport in cells.
    pub fn height(&self) -> (height: u32)
        ensures
            height == self@.height,
    {
        self.height
    }

    /// Scrolls by `dx` glyphs to the right and `dy` down. The scroll position
    /// is not held to the map: what lies beyond it shows as `Outside`.
    pub fn move_by(&mut self, dx: i32, dy: i32)
        requires
            old(self).wf(),
            i32::MIN <= old(self)@.x + dx <= i32::MAX,
            i32::MIN <= old(self)@.y + dy <= i32::MAX,
        ensures
            final(self).wf(),
            final(self)@ == old(self)@.moved_by(dx as int, dy as int),
    {
        self.x = self.x + dx;
        self.y = self.y + dy;
    }

    /// Appends what the glyphs of the cell `(cx, cy)` write to `out`.
    fn push_cell(
        &self,
        glyphs: &Vec<Glyph>,
        screen_rows: i32,
        screen_cols: i32,
        cx: u32,
        cy: u32,
        out: &mut Vec<ScreenGlyph>,
    )
        requires
            self.wf(),
            cx <= self@.width,
            cy <= self@.height,
        ensures
            final(out)@ == old(out)@ + self@.glyphs_writes(
                screen_rows as int,
                screen_cols as int,
                cx as int,
                cy as int,
                glyphs@,
                glyphs@.len(),
            ),
    {
        let subtile_x: i64 = self.subtile_x() as i64;
        let subtile_y: i64 = self.subtile_y() as i64;
        let origin_x: i64 = halve(screen_cols as i64) - halve(self.width as i64 * 3);
        let origin_y: i64 = halve(screen_rows as i64) - halve(self.height as i64 * 3);
        let mut i: usize = 0;
        while i < glyphs.len()
            invariant
                self.wf(),
                cx <= self@.width,
                cy <= self@.height,
                subtile_x == self@.subtile_x(),
                subtile_y == self@.subtile_y(),
                origin_x == self@.origin_x(screen_cols as int),
                origin_y == self@.origin_y(screen_rows as int),
                i <= glyphs@.len(),
                out@ == old(out)@ + self@.glyphs_writes(
                    screen_rows as int,
                    screen_cols as int,
                    cx as int,
                    cy as int,
                    glyphs@,
                    i as nat,
                ),
            decreases glyphs@.len() - i,
        {
            let ghost before = out@;
            let (xoffs, yoffs, ch) = glyphs[i];
            let term_x: i64 = origin_x + cx as i64 * 3 + xoffs as i64 - subtile_x;
            let term_y: i64 = origin_y + cy as i64 * 3 + yoffs as i64 - subtile_y;
            if term_x > 0 && term_y > 0 {
                if term_x < self.width as i64 * 3 && term_y < self.height as i64 * 3 {
                    out.push((term_y as i32, term_x as i32, ch));
                }
            }
            assert(out@ == before + self@.glyph_writes(
                screen_rows as int,
                screen_cols as int,
                cx as int,
                cy as int,
                glyphs@[i as int],
            ));
            i += 1;
        }
    }

    /// How many glyphs of its leftmost column of cells the scroll position
    /// cuts off: the remainder of the scroll position by 3, never negative.
    pub fn subtile_x(&self) -> (sub: i32)
        ensures
            sub == self@.subtile_x(),
            0 <= sub < 3,
    {
        let r = self.x % 3;
        if r < 0 {
            r + 3
        } else {
            r
        }
    }

    /// How many glyphs of its topmost row of cells the scroll position cuts
    /// off.
    pub fn subtile_y(&self) -> (sub: i32)
        ensures
            sub == self@.subtile_y(),
            0 <= sub < 3,
    {
        let r = self.y % 3;
        if r < 0 {
            r + 3
        } else {
            r
        }
    }

    /// The map column of the viewport's leftmost cells.
    pub fn tile_x(&self) -> (tile: i32)
        ensures
            tile == self@.tile_x(),
    {
        let q = self.x / 3;
        if self.x % 3 < 0 {
            q - 1
        } else {
            q
        }
    }

    /// The map row of the viewport's topmost cells.
    pub fn tile_y(&self) -> (tile: i32)
        ensures
            tile == self@.tile_y(),
    {
        let q = self.y / 3;
        if self.y % 3 < 0 {
            q - 1
        } else {
            q
        }
    }

    /// All that one frame writes to a screen of `screen_rows` by
    /// `screen_cols`, in order.
    ///
    /// The viewport is centred on the screen. Its cells are drawn column by
    /// column, with one column and one row more than its extent, so that the
    /// cells which the scroll position cuts show in part. A glyph is left out
    /// where it would land in row 0 or column 0 of the screen, or at or
    /// beyond the viewport's extent in glyphs. The last write is the mark of
    /// the player's position, which is never left out.
    pub fn render_world(&self, world: &World, screen_rows: i32, screen_cols: i32) -> (writes: Vec<
        ScreenGlyph,
    >)
        requires
            self.wf(),
            world.wf(),
        ensures
            writes@ == self@.frame(world@, screen_rows as int, screen_cols as int),
            writes@.len() > 0,
            writes@.last() == self@.player(),
            forall|i: int|
                0 <= i < writes@.len() - 1 ==> self@.shows(
                    (#[trigger] writes@[i]).0 as int,
                    writes@[i].1 as int,
                ),
    {
        proof {
            lemma_world_writes_clipped(
                self@,
                world@,
                screen_rows as int,
                screen_cols as int,
                self@.width + 1,
            );
        }
        let tile_x: i64 = self.tile_x() as i64;
        let tile_y: i64 = self.tile_y() as i64;
        let mut writes: Vec<ScreenGlyph> = Vec::new();
        let mut x: u32 = 0;
        while x < self.width + 1
            invariant
                self.wf(),
                world.wf(),
                tile_x == self@.tile_x(),
                tile_y == self@.tile_y(),
                x <= self@.width + 1,
                writes@ == self@.world_writes(
                    world@,
                    screen_rows as int,
                    screen_cols as int,
                    x as nat,
                ),
            decreases self@.width + 1 - x,
        {
            let ghost left = writes@;
            let mut y: u32 = 0;
            while y < self.height + 1
                invariant
                    self.wf(),
                    world.wf(),
                    tile_x == self@.tile_x(),
                    tile_y == self@.tile_y(),
                    x <= self@.width,
                    y <= self@.height + 1,
                    writes@ == left + self@.column_writes(
                        world@,
                        screen_rows as int,
                        screen_cols as int,
                        x as int,
                        y as nat,
                    ),
                decreases self@.height + 1 - y,
            {
                let glyphs = world.draw_at(x as i64 + tile_x, y as i64 + tile_y);
                self.push_cell(&glyphs, screen_rows, screen_cols, x, y, &mut writes);
                y += 1;
            }
            x += 1;
        }
        writes.push(((self.height / 2 * 3) as i32, (self.width / 2 * 3) as i32, CHAR_PLAYER));
        writes
    }
}

impl ViewportView {
    /// Whether every one of `writes` lies where the viewport may write.
    pub open spec fn shows_all(self, writes: Seq<ScreenGlyph>) -> bool {
        forall|i: int|
            0 <= i < writes.len() ==> self.shows((#[trigger] writes[i]).0 as int, writes[i].1 as int)
    }
}

proof fn lemma_glyphs_writes_clipped(
    view: ViewportView,
    screen_rows: int,
    screen_cols: int,
    cx: int,
    cy: int,
    glyphs: Seq<Glyph>,
    n: nat,
)
    requires
        view.wf(),
    ensures
        view.shows_all(view.glyphs_writes(screen_rows, screen_cols, cx, cy, glyphs, n)),
    decreases n,
{
    if n > 0 {
        lemma_glyphs_writes_clipped(view, screen_rows, screen_cols, cx, cy, glyphs, (n - 1) as nat);
    }
}

proof fn lemma_column_writes_clipped(
    view: ViewportView,
    world: WorldView,
    screen_rows: int,
    screen_cols: int,
    cx: int,
    n: nat,
)
    requires
        view.wf(),
    ensures
        view.shows_all(view.column_writes(world, screen_rows, screen_cols, cx, n)),
    decreases n,
{
    if n > 0 {
        lemma_column_writes_clipped(view, world, screen_rows, screen_cols, cx, (n - 1) as nat);
        let glyphs = world.draw(cx + view.tile_x(), n - 1 + view.tile_y());
        lemma_glyphs_writes_clipped(
            view,
            screen_rows,
            screen_cols,
            cx,
            n - 1,
            glyphs,
            glyphs.len(),
        );
    }
}

/// No cell of the viewport writes to row 0 or column 0 of the screen, nor to
/// a row or column from the viewport's extent in glyphs on.
pub proof fn lemma_world_writes_clipped(
    view: ViewportView,
    world: WorldView,
    screen_rows: int,
    screen_cols: int,
    n: nat,
)
    requires
        view.wf(),
    ensures
        view.shows_all(view.world_writes(world, screen_rows, screen_cols, n)),
    decreases n,
{
    if n > 0 {
        lemma_world_writes_clipped(view, world, screen_rows, screen_cols, (n - 1) as nat);
        lemma_column_writes_clipped(
            view,
            world,
            screen_rows,
            screen_cols,
            n - 1,
            view.height + 1,
        );
    }
}

/// The scroll position splits into whole cells and a remainder of 0, 1 or 2
/// glyphs, for a negative position as for a positive one. One glyph to the
/// left of the origin, the remainder is 2.
pub proof fn lemma_subtile_range(view: ViewportView)
    ensures
        0 <= view.subtile_x() < 3,
        0 <= view.subtile_y() < 3,
        view.x == 3 * view.tile_x() + view.subtile_x(),
        view.y == 3 * view.tile_y() + view.subtile_y(),
        view.x == -1 ==> view.subtile_x() == 2 && view.tile_x() == -1,
        view.y == -1 ==> view.subtile_y() == 2 && view.tile_y() == -1,
{
}

/// A scroll by whole cells leaves the remainders as they are and shows in
/// each cell of the viewport the map cell that stood so many cells to the
/// right and down before: every glyph of it lands three screen columns
/// further left for each cell scrolled to the right, and three rows further
/// up for each cell scrolled down. After a scroll by one cell to the right, a
/// viewport that cut no cell before cuts none now.
pub proof fn lemma_move_by_whole_cells(
    view: ViewportView,
    right: int,
    down: int,
    world: WorldView,
    screen_rows: int,
    screen_cols: int,
    cx: int,
    cy: int,
    glyph: Glyph,
)
    ensures
        ({
            let moved = view.moved_by(3 * right, 3 * down);
            &&& moved.subtile_x() == view.subtile_x()
            &&& moved.subtile_y() == view.subtile_y()
            &&& moved.tile_x() == view.tile_x() + right
            &&& moved.tile_y() == view.tile_y() + down
            &&& world.draw(cx + moved.tile_x(), cy + moved.tile_y()) == world.draw(
                cx + right + view.tile_x(),
                cy + down + view.tile_y(),
            )
            &&& moved.screen_col(screen_cols, cx, glyph) == view.screen_col(
                screen_cols,
                cx + right,
                glyph,
            ) - 3 * right
            &&& moved.screen_row(screen_rows, cy, glyph) == view.screen_row(
                screen_rows,
                cy + down,
                glyph,
            ) - 3 * down
        }),
        view.subtile_x() == 0 ==> view.moved_by(3, 0).subtile_x() == 0,
        view.moved_by(3, 0).tile_x() == view.tile_x() + 1,
{
    let moved = view.moved_by(3 * right, 3 * down);
    assert(moved.tile_x() == view.tile_x() + right && moved.subtile_x() == view.subtile_x());
    assert(moved.tile_y() == view.tile_y() + down && moved.subtile_y() == view.subtile_y());
}

/// A scroll and the opposite scroll after it leave the viewport as it was.
pub proof fn lemma_move_by_round_trip(view: ViewportView, dx: int, dy: int)
    ensures
        view.moved_by(dx, dy).moved_by(-dx, -dy) == view,
{
}

} // verus!
