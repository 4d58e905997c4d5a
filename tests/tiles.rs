use std::cell::Cell;
use std::rc::Rc;

use tile_grid::cache::TileCache;
use tile_grid::geometry::{Viewport, CELL_HEIGHT, CELL_WIDTH, NUM_COLS, ROWS_PER_TILE, TILE_HEIGHT};
use tile_grid::raster::{paint_tile, DrawCommand, TEXT_INSET_X, TEXT_INSET_Y};
use tile_grid::state::{init, on_animation_frame, on_translate, resize_surface, TilePlacement};

fn labels_of(cmds: &[DrawCommand]) -> Vec<(String, i32, i32)> {
    cmds.iter()
        .filter_map(|c| match c {
            DrawCommand::Text { text, x, y } => Some((text.clone(), *x, *y)),
            _ => None,
        })
        .collect()
}

#[test]
fn geometry_constants() {
    assert_eq!(TILE_HEIGHT, 640);
    assert_eq!(CELL_WIDTH, 320);
    assert_eq!(CELL_HEIGHT, 64);
    assert_eq!(ROWS_PER_TILE, 10);
    assert_eq!(NUM_COLS, 7);
}

#[test]
fn top_of_grid_shows_two_tiles() {
    let v = Viewport::visible_tiles(0, 800);
    assert_eq!(v, Viewport { scroll_offset: 0, start_tile: 0, end_tile: 2 });
    assert_eq!(v.tile_y(0), 0);
    assert_eq!(v.tile_y(1), 640);
}

#[test]
fn scroll_into_second_tile() {
    let v = Viewport::visible_tiles(700, 800);
    assert_eq!(v.start_tile, 1);
    assert_eq!(v.scroll_offset, 60);
    assert_eq!(v.end_tile, 3);
    assert_eq!(v.tile_y(1), -60);
    assert_eq!(v.tile_y(2), 580);
}

#[test]
fn small_scroll_reuses_cached_tile() {
    let calls = Cell::new(0u32);
    let raster = |i: i32, w: i32| {
        calls.set(calls.get() + 1);
        Rc::new((i, w))
    };
    let mut state = init::<Rc<(i32, i32)>>(1000, 800);
    let first = on_translate(&mut state, 700, &raster);
    assert_eq!(
        first,
        vec![
            TilePlacement { tile: 1, y: -60, rasterized: true },
            TilePlacement { tile: 2, y: 580, rasterized: true },
        ]
    );
    assert_eq!(calls.get(), 2);
    let tile_one = Rc::clone(state.tile_cache().get(1).unwrap());
    let second = on_translate(&mut state, 710, &raster);
    assert_eq!(
        second,
        vec![
            TilePlacement { tile: 1, y: -70, rasterized: false },
            TilePlacement { tile: 2, y: 570, rasterized: false },
        ]
    );
    assert_eq!(calls.get(), 2);
    assert!(Rc::ptr_eq(&tile_one, state.tile_cache().get(1).unwrap()));
}

#[test]
fn tile_three_labels_rows_thirty_to_forty() {
    let cmds = paint_tile(3, 2240);
    let labels = labels_of(&cmds);
    assert_eq!(labels.len(), 70);
    for (k, (text, x, y)) in labels.iter().enumerate() {
        let row = 30 + (k as i32) / 7;
        let col = (k as i32) % 7;
        assert_eq!(text, &row.to_string());
        assert_eq!(*x, 320 * col + 20);
        assert_eq!(*y, 64 * (row - 30) + 40);
    }
    let row_35: Vec<&(String, i32, i32)> = labels.iter().filter(|l| l.2 == 64 * 5 + TEXT_INSET_Y).collect();
    assert_eq!(row_35.len(), 7);
    assert!(row_35.iter().all(|l| l.0 == "35"));
    assert_eq!(row_35[0].1, TEXT_INSET_X);
}

#[test]
fn tile_range_covers_viewport() {
    for &scroll in &[0, 1, 639, 640, 641, 700, 1279, 12345, 1_000_000] {
        for &height in &[1, 100, 639, 640, 641, 800, 1920] {
            let v = Viewport::visible_tiles(scroll, height);
            let (start, end) = (v.start_tile as i64, v.end_tile as i64);
            let (s, h) = (scroll as i64, height as i64);
            assert!(start * 640 <= s && s < (start + 1) * 640);
            assert!(end * 640 >= s + h);
            assert!((end - 1) * 640 < s + h);
            assert_eq!(v.scroll_offset as i64, s - start * 640);
        }
    }
}

#[test]
fn negative_scroll_uses_floor() {
    let v = Viewport::visible_tiles(-1, 100);
    assert_eq!(v, Viewport { scroll_offset: 639, start_tile: -1, end_tile: 1 });
    let v = Viewport::visible_tiles(-640, 640);
    assert_eq!(v, Viewport { scroll_offset: 0, start_tile: -1, end_tile: 0 });
}

#[test]
fn empty_surface_shows_nothing() {
    let v = Viewport::visible_tiles(0, 0);
    assert_eq!(v.end_tile, v.start_tile);
    let mut state = init::<i32>(100, 0);
    let placements = on_translate(&mut state, 0, |i: i32, _w: i32| i);
    assert!(placements.is_empty());
    assert_eq!(state.tile_cache().len(), 0);
}

#[test]
fn extreme_scroll_and_height() {
    let v = Viewport::visible_tiles(i32::MAX, i32::MAX);
    assert_eq!(v.start_tile, i32::MAX / 640);
    assert_eq!(v.scroll_offset, i32::MAX % 640);
    let needed = (i32::MAX as i64 + v.scroll_offset as i64 + 639) / 640;
    assert_eq!(v.end_tile as i64, v.start_tile as i64 + needed);
    let v = Viewport::visible_tiles(i32::MIN, 1);
    assert_eq!(v.start_tile as i64, (i32::MIN as i64).div_euclid(640));
    assert_eq!(v.scroll_offset as i64, (i32::MIN as i64).rem_euclid(640));
}

#[test]
fn paint_tile_draws_grid_lines() {
    let cmds = paint_tile(0, 1000);
    assert_eq!(cmds.len(), 11 + 8 + 70);
    for k in 0..11 {
        assert_eq!(cmds[k], DrawCommand::Line { x0: 0, y0: 64 * k as i32, x1: 1000, y1: 64 * k as i32 });
    }
    for c in 0..8 {
        let x = 320 * c as i32;
        assert_eq!(cmds[11 + c], DrawCommand::Line { x0: x, y0: 0, x1: x, y1: 640 });
    }
    assert_eq!(cmds[19], DrawCommand::Text { text: "0".to_string(), x: 20, y: 40 });
    assert_eq!(cmds[88], DrawCommand::Text { text: "9".to_string(), x: 320 * 6 + 20, y: 64 * 9 + 40 });
}

#[test]
fn paint_tile_labels_negative_and_large_rows() {
    let labels = labels_of(&paint_tile(-1, 10));
    assert_eq!(labels[0].0, "-10");
    assert_eq!(labels[69].0, "-1");
    let labels = labels_of(&paint_tile(i32::MAX, 10));
    assert_eq!(labels[0].0, (i32::MAX as i64 * 10).to_string());
    assert_eq!(labels[0].0, "21474836470");
}

#[test]
fn paint_tile_is_deterministic() {
    assert_eq!(paint_tile(5, 777), paint_tile(5, 777));
    assert_ne!(paint_tile(5, 777), paint_tile(5, 778));
    assert_ne!(paint_tile(5, 777), paint_tile(6, 777));
}

#[test]
fn get_or_create_twice_returns_same_image() {
    let calls = Cell::new(0u32);
    let mut cache: TileCache<Rc<i32>> = TileCache::new();
    let first = Rc::clone(cache.get_or_create(4, |i: i32| {
        calls.set(calls.get() + 1);
        Rc::new(i * 100)
    }));
    let second = Rc::clone(cache.get_or_create(4, |i: i32| {
        calls.set(calls.get() + 1);
        Rc::new(i * 100)
    }));
    assert!(Rc::ptr_eq(&first, &second));
    assert_eq!(*first, 400);
    assert_eq!(calls.get(), 1);
    assert_eq!(cache.len(), 1);
}

#[test]
fn cache_set_get_and_invalidate() {
    let mut cache: TileCache<&str> = TileCache::new();
    assert!(!cache.contains(0));
    assert_eq!(cache.get(0), None);
    cache.set_tile(0, "a");
    cache.set_tile(-3, "b");
    cache.set_tile(0, "c");
    assert_eq!(cache.len(), 2);
    assert_eq!(cache.get(0), Some(&"c"));
    assert_eq!(cache.get(-3), Some(&"b"));
    cache.invalidate_all();
    assert_eq!(cache.len(), 0);
    assert!(!cache.contains(-3));
}

#[test]
fn resize_invalidates_cached_tiles() {
    let calls = Cell::new(0u32);
    let raster = |i: i32, w: i32| {
        calls.set(calls.get() + 1);
        (i, w)
    };
    let mut state = init::<(i32, i32)>(1000, 800);
    on_translate(&mut state, 0, &raster);
    assert_eq!(state.tile_cache().get(0), Some(&(0, 1000)));
    resize_surface(&mut state, 1200, 900);
    assert_eq!(state.width(), 1200);
    assert_eq!(state.height(), 900);
    assert_eq!(state.tile_cache().len(), 0);
    let placements = on_translate(&mut state, 0, &raster);
    assert!(placements.iter().all(|p| p.rasterized));
    assert_eq!(state.tile_cache().get(0), Some(&(0, 1200)));
    assert_eq!(calls.get(), 4);
}

#[test]
fn animation_frame_redraws_from_top() {
    let mut state = init::<i32>(500, 1300);
    on_translate(&mut state, 6400, |i: i32, _w: i32| i);
    let placements = on_animation_frame(&mut state, |i: i32, _w: i32| i);
    let tiles: Vec<i32> = placements.iter().map(|p| p.tile).collect();
    let ys: Vec<i64> = placements.iter().map(|p| p.y).collect();
    assert_eq!(tiles, vec![0, 1, 2]);
    assert_eq!(ys, vec![0, 640, 1280]);
    assert!(placements.iter().all(|p| p.rasterized));
    assert_eq!(state.tile_cache().len(), 6);
}

