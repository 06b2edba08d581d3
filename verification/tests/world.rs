use bitshardshell::Raster;
use bitshardshell::Tile;
use bitshardshell::World;

fn checker() -> World {
    // W A W
    // A W A
    World::new(
        3,
        2,
        vec![Tile::Wall, Tile::Air, Tile::Wall, Tile::Air, Tile::Wall, Tile::Air],
    )
}

#[test]
fn tile_at_reads_row_major() {
    let world = checker();
    assert_eq!(world.tile_at(0, 0), Tile::Wall);
    assert_eq!(world.tile_at(1, 0), Tile::Air);
    assert_eq!(world.tile_at(2, 0), Tile::Wall);
    assert_eq!(world.tile_at(0, 1), Tile::Air);
    assert_eq!(world.tile_at(1, 1), Tile::Wall);
    assert_eq!(world.tile_at(2, 1), Tile::Air);
}

#[test]
fn tile_at_outside_the_map() {
    let world = checker();
    assert_eq!(world.tile_at(-1, 0), Tile::Outside);
    assert_eq!(world.tile_at(0, -1), Tile::Outside);
    assert_eq!(world.tile_at(3, 0), Tile::Outside);
    assert_eq!(world.tile_at(0, 2), Tile::Outside);
    assert_eq!(world.tile_at(3, 2), Tile::Outside);
    assert_eq!(world.tile_at(i32::MIN, i32::MIN), Tile::Outside);
    assert_eq!(world.tile_at(i32::MAX, i32::MAX), Tile::Outside);
    assert_eq!(world.tile_at(i32::MAX, 0), Tile::Outside);
    assert_eq!(world.tile_at(0, i32::MAX), Tile::Outside);
}

#[test]
fn tile_at_inside_is_never_outside() {
    let world = checker();
    for y in 0..2 {
        for x in 0..3 {
            assert_ne!(world.tile_at(x, y), Tile::Outside);
        }
    }
}

#[test]
fn empty_world_is_all_outside() {
    let world = World::new(0, 0, vec![]);
    assert_eq!(world.tile_at(0, 0), Tile::Outside);
    let flat = World::new(5, 0, vec![]);
    assert_eq!(flat.tile_at(2, 0), Tile::Outside);
    assert_eq!(flat.width(), 5);
    assert_eq!(flat.height(), 0);
}

#[test]
fn world_reports_its_extent() {
    let world = checker();
    assert_eq!(world.width(), 3);
    assert_eq!(world.height(), 2);
}

#[test]
fn pixel_classification() {
    assert_eq!(Tile::from((255, 0, 0)), Tile::Wall);
    assert_eq!(Tile::from((0, 0, 0)), Tile::Air);
    assert_eq!(Tile::from((255, 255, 255)), Tile::Air);
    assert_eq!(Tile::from((254, 0, 0)), Tile::Air);
    assert_eq!(Tile::from((255, 1, 0)), Tile::Air);
    assert_eq!(Tile::from((255, 0, 1)), Tile::Air);
    assert_eq!(Tile::from((0, 255, 0)), Tile::Air);
    assert_eq!(Tile::from((0, 0, 255)), Tile::Air);
}

#[test]
fn raster_from_raw_bytes() {
    let raster = Raster::new(2, 1, vec![255, 0, 0, 1, 2, 3]).unwrap();
    assert_eq!(raster.width(), 2);
    assert_eq!(raster.height(), 1);
    assert_eq!(raster.pixels(), vec![(255, 0, 0), (1, 2, 3)]);
}

#[test]
fn raster_refuses_too_few_bytes() {
    assert!(Raster::new(2, 2, vec![0; 11]).is_none());
    assert!(Raster::new(1, 1, vec![]).is_none());
    assert!(Raster::new(u32::MAX, u32::MAX, vec![0; 12]).is_none());
}

#[test]
fn raster_ignores_bytes_beyond_the_image() {
    let raster = Raster::new(1, 2, vec![9, 8, 7, 6, 5, 4, 3, 2]).unwrap();
    assert_eq!(raster.pixels(), vec![(9, 8, 7), (6, 5, 4)]);
}

#[test]
fn raster_without_pixels() {
    let raster = Raster::new(0, 7, vec![]).unwrap();
    assert_eq!(raster.width(), 0);
    assert_eq!(raster.height(), 7);
    assert_eq!(raster.pixels(), vec![]);
}

#[test]
fn world_from_raster() {
    // red black
    // white red
    let raster = Raster::new(
        2,
        2,
        vec![255, 0, 0, 0, 0, 0, 255, 255, 255, 255, 0, 0],
    )
    .unwrap();
    let world = World::from(&raster);
    assert_eq!(world.width(), 2);
    assert_eq!(world.height(), 2);
    assert_eq!(world.tile_at(0, 0), Tile::Wall);
    assert_eq!(world.tile_at(1, 0), Tile::Air);
    assert_eq!(world.tile_at(0, 1), Tile::Air);
    assert_eq!(world.tile_at(1, 1), Tile::Wall);
    assert_eq!(world.tile_at(2, 1), Tile::Outside);
}

#[test]
fn world_from_wide_raster_keeps_rows_apart() {
    // three pixels in one row: only the last is red
    let raster = Raster::new(3, 1, vec![0, 0, 0, 0, 0, 0, 255, 0, 0]).unwrap();
    let world = World::from(&raster);
    assert_eq!(world.tile_at(2, 0), Tile::Wall);
    assert_eq!(world.tile_at(0, 0), Tile::Air);
    assert_eq!(world.tile_at(0, 1), Tile::Outside);
    assert_eq!(world.tile_at(0, 2), Tile::Outside);
}
