use bitshardshell::glyph::CHAR_PLAYER;
use bitshardshell::ScreenGlyph;
use bitshardshell::Tile;
use bitshardshell::Viewport;
use bitshardshell::World;
use std::collections::HashMap;

/// The mark of the player's position.
const MARK: char = '\u{FB4A}';

fn one_wall() -> World {
    World::new(1, 1, vec![Tile::Wall])
}

/// The screen after the writes: the last glyph written to each position.
fn painted(writes: &[ScreenGlyph]) -> HashMap<(i32, i32), char> {
    let mut screen = HashMap::new();
    for &(row, col, ch) in writes {
        screen.insert((row, col), ch);
    }
    screen
}

#[test]
fn player_mark_is_tav_with_dagesh() {
    assert_eq!(CHAR_PLAYER, '\u{FB4A}');
}

#[test]
fn new_viewport_keeps_its_values() {
    let view = Viewport::new(-4, 7, 20, 10);
    assert_eq!(view.scroll_x(), -4);
    assert_eq!(view.scroll_y(), 7);
    assert_eq!(view.width(), 20);
    assert_eq!(view.height(), 10);
}

#[test]
fn move_by_adds_to_the_scroll_position() {
    let mut view = Viewport::new(0, 0, 20, 10);
    view.move_by(5, -2);
    assert_eq!((view.scroll_x(), view.scroll_y()), (5, -2));
    view.move_by(-7, 1);
    assert_eq!((view.scroll_x(), view.scroll_y()), (-2, -1));
    assert_eq!((view.width(), view.height()), (20, 10));
}

#[test]
fn move_by_is_not_held_to_the_map() {
    let mut view = Viewport::new(0, 0, 1, 1);
    view.move_by(-1000, 1000);
    assert_eq!((view.scroll_x(), view.scroll_y()), (-1000, 1000));
    view.move_by(i32::MAX - 1000, 0);
    assert_eq!(view.scroll_x(), i32::MAX - 2000);
}

#[test]
fn move_by_and_back_restores_the_position() {
    for (dx, dy) in [(1, 0), (0, 1), (-1, -1), (17, -40), (i32::MAX, i32::MIN + 1)] {
        let mut view = Viewport::new(0, -1, 20, 10);
        view.move_by(dx, dy);
        view.move_by(-dx, -dy);
        assert_eq!((view.scroll_x(), view.scroll_y()), (0, -1));
    }
}

#[test]
fn subtile_is_never_negative() {
    let mut view = Viewport::new(0, 0, 20, 10);
    view.move_by(-1, 0);
    assert_eq!(view.subtile_x(), 2);
    assert_eq!(view.tile_x(), -1);
    assert_eq!(view.subtile_y(), 0);
    assert_eq!(view.tile_y(), 0);
    view.move_by(0, -2);
    assert_eq!(view.subtile_y(), 1);
    assert_eq!(view.tile_y(), -1);
}

#[test]
fn subtile_and_tile_split_the_scroll_position() {
    let expected = [
        (-7, -3, 2),
        (-6, -2, 0),
        (-5, -2, 1),
        (-4, -2, 2),
        (-3, -1, 0),
        (-2, -1, 1),
        (-1, -1, 2),
        (0, 0, 0),
        (1, 0, 1),
        (2, 0, 2),
        (3, 1, 0),
        (4, 1, 1),
        (i32::MAX, 715827882, 1),
        (i32::MIN, -715827883, 1),
    ];
    for (scroll, tile, subtile) in expected {
        let view = Viewport::new(scroll, scroll, 1, 1);
        assert_eq!((view.tile_x(), view.subtile_x()), (tile, subtile));
        assert_eq!((view.tile_y(), view.subtile_y()), (tile, subtile));
    }
}

#[test]
fn scroll_by_a_whole_cell_keeps_the_subtile() {
    for start in [-4, -1, 0, 2, 9] {
        let mut view = Viewport::new(start, start, 4, 4);
        let (sub, tile) = (view.subtile_x(), view.tile_x());
        view.move_by(3, 0);
        assert_eq!(view.subtile_x(), sub);
        assert_eq!(view.tile_x(), tile + 1);
    }
    let mut view = Viewport::new(0, 0, 4, 4);
    view.move_by(3, 0);
    assert_eq!(view.subtile_x(), 0);
}

#[test]
fn frame_of_the_smallest_viewport() {
    let view = Viewport::new(0, 0, 1, 1);
    assert_eq!(
        view.render_world(&one_wall(), 3, 3),
        vec![(1, 1, '∷'), (2, 1, '∷'), (1, 2, '∷'), (2, 2, '∷'), (0, 0, MARK)]
    );
}

#[test]
fn frame_scrolled_one_glyph_right() {
    let view = Viewport::new(1, 0, 1, 1);
    assert_eq!(
        view.render_world(&one_wall(), 3, 3),
        vec![(1, 1, '∷'), (2, 1, '∷'), (1, 2, '≋'), (2, 2, '≋'), (0, 0, MARK)]
    );
}

#[test]
fn frame_scrolled_one_glyph_left() {
    let view = Viewport::new(-1, 0, 1, 1);
    assert_eq!(
        view.render_world(&one_wall(), 3, 3),
        vec![(1, 1, '∷'), (2, 1, '∷'), (1, 2, '∷'), (2, 2, '∷'), (0, 0, MARK)]
    );
    let view = Viewport::new(-2, 0, 1, 1);
    assert_eq!(
        view.render_world(&one_wall(), 3, 3),
        vec![(1, 1, '≋'), (2, 1, '≋'), (1, 2, '∷'), (2, 2, '∷'), (0, 0, MARK)]
    );
}

#[test]
fn frame_scrolled_one_glyph_down() {
    // the wall's bottom row, then the top row of what lies below the map
    let view = Viewport::new(0, 1, 1, 1);
    assert_eq!(
        view.render_world(&one_wall(), 3, 3),
        vec![(1, 1, '∷'), (1, 2, '∷'), (2, 1, '≋'), (2, 2, '≋'), (0, 0, MARK)]
    );
}

#[test]
fn frame_on_a_screen_of_no_size() {
    // the viewport starts one glyph left of and above the screen
    let view = Viewport::new(0, 0, 1, 1);
    assert_eq!(
        view.render_world(&one_wall(), 0, 0),
        vec![(1, 1, '∷'), (2, 1, '≋'), (1, 2, '≋'), (2, 2, '≋'), (0, 0, MARK)]
    );
}

#[test]
fn frame_on_a_wide_screen_is_clipped_at_the_extent() {
    // centred on nine columns, the viewport starts at column 3, where its
    // extent of three glyphs ends
    let view = Viewport::new(0, 0, 1, 1);
    assert_eq!(view.render_world(&one_wall(), 3, 9), vec![(0, 0, MARK)]);
}

#[test]
fn frame_draws_lines_over_the_fill() {
    // a wall with open floor to its north
    let world = World::new(1, 2, vec![Tile::Air, Tile::Wall]);
    let view = Viewport::new(0, 3, 1, 1);
    assert_eq!(
        view.render_world(&world, 3, 3),
        vec![
            (1, 1, '∷'),
            (2, 1, '∷'),
            (1, 2, '∷'),
            (2, 2, '∷'),
            (0, 0, MARK)
        ]
    );
    let view = Viewport::new(0, 2, 1, 1);
    assert_eq!(
        view.render_world(&world, 3, 3),
        vec![
            (1, 1, '∷'),
            (2, 1, '∷'),
            (1, 2, '∷'),
            (2, 2, '∷'),
            (1, 1, '─'),
            (1, 2, '─'),
            (0, 0, MARK)
        ]
    );
}

#[test]
fn player_mark_comes_last_at_the_middle() {
    let world = one_wall();
    let view = Viewport::new(0, 0, 20, 10);
    let writes = view.render_world(&world, 30, 60);
    assert_eq!(writes.last(), Some(&(15, 30, MARK)));
    let view = Viewport::new(5, 5, 3, 5);
    let writes = view.render_world(&world, 0, 0);
    assert_eq!(writes.last(), Some(&(6, 3, MARK)));
}

#[test]
fn no_write_of_the_map_is_clipped_away_wrongly_or_kept_wrongly() {
    let world = World::new(2, 2, vec![Tile::Wall, Tile::Air, Tile::Air, Tile::Wall]);
    for (rows, cols) in [(0, 0), (6, 6), (7, 5), (12, 12), (2, 9), (-1, -1)] {
        for scroll_x in -4..5 {
            for scroll_y in -4..5 {
                let view = Viewport::new(scroll_x, scroll_y, 2, 2);
                let writes = view.render_world(&world, rows, cols);
                let (mark, map) = writes.split_last().unwrap();
                assert_eq!(*mark, (3, 3, MARK));
                for &(row, col, _) in map {
                    assert!(0 < row && row < 6, "row {row}");
                    assert!(0 < col && col < 6, "column {col}");
                }
            }
        }
    }
}

#[test]
fn every_position_within_the_clip_is_painted() {
    let world = World::new(2, 2, vec![Tile::Wall, Tile::Air, Tile::Air, Tile::Wall]);
    for scroll in -4..5 {
        let view = Viewport::new(scroll, -scroll, 2, 2);
        let writes = view.render_world(&world, 6, 6);
        let screen = painted(&writes[..writes.len() - 1]);
        assert_eq!(screen.len(), 25);
    }
}

#[test]
fn scroll_by_a_whole_cell_shifts_the_picture() {
    // W A W A
    // A A W W
    let world = World::new(
        4,
        2,
        vec![
            Tile::Wall,
            Tile::Air,
            Tile::Wall,
            Tile::Air,
            Tile::Air,
            Tile::Air,
            Tile::Wall,
            Tile::Wall,
        ],
    );
    for start in [-2, 0, 1] {
        let mut view = Viewport::new(start, 0, 3, 2);
        let before = view.render_world(&world, 6, 9);
        view.move_by(3, 0);
        let after = view.render_world(&world, 6, 9);
        let before = painted(&before[..before.len() - 1]);
        let after = painted(&after[..after.len() - 1]);
        let mut compared = 0;
        for ((row, col), ch) in &after {
            if let Some(old) = before.get(&(*row, col + 3)) {
                assert_eq!(ch, old);
                compared += 1;
            }
        }
        assert_eq!(compared, 5 * 5);
    }
}

#[test]
fn frame_of_open_floor_and_the_outside() {
    let world = World::new(1, 1, vec![Tile::Air]);
    let view = Viewport::new(-3, -3, 2, 2);
    let writes = view.render_world(&world, 6, 6);
    let screen = painted(&writes[..writes.len() - 1]);
    for row in 1..6 {
        for col in 1..6 {
            let inside = (3..6).contains(&row) && (3..6).contains(&col);
            assert_eq!(screen[&(row, col)], if inside { ' ' } else { '≋' });
        }
    }
}

#[test]
fn scroll_by_whole_cells_down_shifts_the_picture_up() {
    let world = World::new(
        2,
        3,
        vec![Tile::Wall, Tile::Air, Tile::Air, Tile::Wall, Tile::Wall, Tile::Wall],
    );
    let mut view = Viewport::new(1, -1, 2, 3);
    let before = view.render_world(&world, 9, 6);
    view.move_by(0, 6);
    assert_eq!((view.subtile_y(), view.tile_y()), (2, 1));
    let after = view.render_world(&world, 9, 6);
    let before = painted(&before[..before.len() - 1]);
    let after = painted(&after[..after.len() - 1]);
    let mut compared = 0;
    for ((row, col), ch) in &after {
        if let Some(old) = before.get(&(row + 6, *col)) {
            assert_eq!(ch, old);
            compared += 1;
        }
    }
    assert_eq!(compared, 2 * 5);
}
