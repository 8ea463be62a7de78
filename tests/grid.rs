use image_grid::grid::{state_changed, Action, Grid, GridConfig, Key};
use image_grid::layout::Layout;
use image_grid::size::{compute_tile_size, fit};

fn square_tiles(n: usize) -> Vec<(u32, u32)> {
    vec![(400, 400); n]
}

fn center_of(grid: &Grid, i: usize) -> (i32, i32) {
    let (x, y) = grid.tile_position(i);
    let (w, h) = grid.tile_size();
    ((x + (w / 2) as i64) as i32, (y + (h / 2) as i64) as i32)
}

#[test]
fn scenario_twenty_three_tiles() {
    let mut grid = Grid::new(square_tiles(23), 200, 200);
    assert_eq!(grid.tile_size(), (200, 200));
    grid.resize(660);
    assert_eq!(grid.tiles_per_row(), 3);
    assert_eq!(grid.center_offset(), 5);
    assert_eq!(grid.key_down_event(Key::Down), Action::Nothing);
    assert_eq!(grid.selected_index(), 3);
    grid.key_down_event(Key::End);
    assert_eq!(grid.selected_index(), 22);
    let (cx, cy) = center_of(&grid, 22);
    grid.mouse_button_up_event(cx, cy);
    let frame = grid.frame(660, 10_000);
    assert!(frame.activate);
    assert_eq!(grid.selected_index(), 22);
    // the host hands the activation back as a return key press
    assert_eq!(grid.key_down_event(Key::Return), Action::Nothing);
    assert!(grid.in_detail());
    assert_eq!(grid.key_down_event(Key::Return), Action::Activate(22));
}

#[test]
fn scenario_empty_tile_set() {
    let mut grid = Grid::new(Vec::new(), 200, 200);
    assert_eq!(grid.tile_size(), (0, 0));
    grid.resize(800);
    assert_eq!(grid.tiles_per_row(), 1);
    assert_eq!(grid.key_down_event(Key::Return), Action::Nothing);
    assert!(!grid.in_detail());
    for (x, y) in [(0, 0), (20, 20), (400, 300), (-5, -5), (i32::MAX, i32::MIN)] {
        assert_eq!(grid.hit_test(x, y), None);
    }
    for key in [Key::Up, Key::Down, Key::Left, Key::Right, Key::Home, Key::End] {
        grid.key_down_event(key);
        assert_eq!(grid.selected_index(), 0);
    }
    grid.mouse_button_up_event(30, 30);
    let frame = grid.frame(800, 600);
    assert!(frame.tiles.is_empty());
    assert!(frame.detail.is_none());
    assert!(!frame.activate);
}

#[test]
fn tile_size_never_exceeds_hint() {
    let sizes = vec![(400, 300), (100, 800), (50, 20), (0, 7), (3000, 1)];
    for (hw, hh) in [(200, 200), (1, 1), (640, 480), (90, 300)] {
        let (tw, th) = compute_tile_size(&sizes, hw, hh);
        assert!(tw <= hw && th <= hh);
    }
    assert_eq!(compute_tile_size(&vec![(400, 300), (100, 800)], 200, 200), (200, 200));
    assert_eq!(compute_tile_size(&vec![(400, 300)], 200, 200), (200, 150));
    assert_eq!(compute_tile_size(&Vec::new(), 200, 200), (0, 0));
}

#[test]
fn fit_keeps_aspect_ratio() {
    assert_eq!(fit(400, 300, 200, 200), (200, 150));
    assert_eq!(fit(100, 800, 200, 200), (25, 200));
    // small images are scaled up to fit
    assert_eq!(fit(50, 20, 200, 200), (200, 80));
    assert_eq!(fit(0, 10, 200, 100), (0, 100));
    assert_eq!(fit(10, 0, 200, 100), (200, 0));
    assert_eq!(fit(0, 0, 200, 100), (0, 0));
    assert_eq!(fit(u32::MAX, u32::MAX, u32::MAX, 1), (1, 1));
}

#[test]
fn tiles_per_row_grows_with_width() {
    let mut previous = 0;
    for w in 0..3000u32 {
        let layout = Layout::new(w, 200, 200, 5, 20);
        assert!(layout.tiles_per_row >= previous);
        previous = layout.tiles_per_row;
    }
    assert_eq!(previous, (3000 - 40 + 5 - 1) / 205);
}

#[test]
fn tiles_per_row_is_at_least_one() {
    for w in [0u32, 1, 10, 39, 40, 200, 229] {
        assert_eq!(Layout::new(w, 200, 200, 5, 20).tiles_per_row, 1);
    }
    assert_eq!(Layout::new(u32::MAX, 0, 0, 5, 20).tiles_per_row, 1);
    assert_eq!(Layout::new(0, 0, 0, 0, 0).tiles_per_row, 1);
    let l = Layout::new(660, 200, 200, 5, 20);
    assert_eq!((l.tiles_per_row, l.center_offset), (3, 5));
    let l = Layout::new(u32::MAX, 1, 1, 0, 0);
    assert_eq!(l.tiles_per_row, u32::MAX as u64);
}

#[test]
fn selection_stays_in_range() {
    let mut grid = Grid::new(square_tiles(10), 200, 200);
    grid.resize(660);
    grid.up();
    assert_eq!(grid.selected_index(), 0);
    grid.left();
    assert_eq!(grid.selected_index(), 0);
    grid.right();
    assert_eq!(grid.selected_index(), 1);
    for _ in 0..20 {
        grid.down();
        assert!(grid.selected_index() <= 9);
    }
    assert_eq!(grid.selected_index(), 9);
    grid.right();
    assert_eq!(grid.selected_index(), 9);
    grid.up();
    assert_eq!(grid.selected_index(), 6);
    grid.left();
    assert_eq!(grid.selected_index(), 5);
    grid.home();
    assert_eq!(grid.selected_index(), 0);
    grid.end();
    assert_eq!(grid.selected_index(), 9);
}

#[test]
fn down_from_second_to_last_row_clamps() {
    let mut grid = Grid::new(square_tiles(8), 200, 200);
    grid.resize(660);
    grid.key_down_event(Key::Right);
    grid.key_down_event(Key::Right);
    grid.key_down_event(Key::Down);
    assert_eq!(grid.selected_index(), 5);
    grid.key_down_event(Key::Down);
    assert_eq!(grid.selected_index(), 7);
}

#[test]
fn center_of_every_tile_hits_it() {
    let mut grid = Grid::new(square_tiles(23), 200, 200);
    grid.resize(660);
    for i in 0..23 {
        let (cx, cy) = center_of(&grid, i);
        assert_eq!(grid.hit_test(cx, cy), Some(i));
    }
    // the gap between tiles and the border hit nothing
    assert_eq!(grid.hit_test(5 + 20 + 202, 100), None);
    assert_eq!(grid.hit_test(10, 10), None);
}

#[test]
fn hit_test_follows_scrolling() {
    let mut grid = Grid::new(square_tiles(23), 200, 200);
    grid.resize(660);
    grid.end();
    for _ in 0..10 {
        grid.frame(660, 300);
    }
    assert!(grid.scroll_offset() > 0);
    for i in 0..23 {
        let (cx, cy) = center_of(&grid, i);
        assert_eq!(grid.hit_test(cx, cy), Some(i));
    }
}

#[test]
fn click_selects_then_activates() {
    let mut grid = Grid::new(square_tiles(23), 200, 200);
    grid.resize(660);
    let (cx, cy) = center_of(&grid, 4);
    grid.mouse_button_up_event(cx, cy);
    let frame = grid.frame(660, 600);
    assert!(!frame.activate);
    assert_eq!(grid.selected_index(), 4);
    grid.mouse_button_up_event(cx, cy);
    let frame = grid.frame(660, 600);
    assert!(frame.activate);
    // a click on no tile leaves the selection and is forgotten
    grid.mouse_button_up_event(1, 1);
    let frame = grid.frame(660, 600);
    assert!(!frame.activate);
    assert_eq!(grid.selected_index(), 4);
}

#[test]
fn frame_lists_visible_tiles() {
    let mut sizes = vec![(400, 200)];
    sizes.extend(square_tiles(22));
    let mut grid = Grid::new(sizes, 200, 200);
    let frame = grid.frame(660, 300);
    assert_eq!(grid.tiles_per_row(), 3);
    // rows start at y = 20, 225, 430: the third starts below the viewport
    assert_eq!(frame.tiles.len(), 6);
    let first = frame.tiles[0];
    assert_eq!((first.index, first.x, first.y), (0, 25, 20 + 50));
    assert_eq!((first.width, first.height), (200, 100));
    assert!(first.selected);
    let fifth = frame.tiles[4];
    assert_eq!((fifth.index, fifth.x, fifth.y), (4, 25 + 205, 225));
    assert_eq!((fifth.width, fifth.height), (200, 200));
    assert!(!fifth.selected);
    assert!(frame.detail.is_none());
}

#[test]
fn frame_scrolls_one_row_at_a_time() {
    let mut grid = Grid::new(square_tiles(23), 200, 200);
    grid.resize(660);
    grid.end();
    // the last row starts at 20 + 7 * 205 = 1455
    let mut steps = 0;
    let mut previous = grid.scroll_offset();
    loop {
        grid.frame(660, 300);
        let now = grid.scroll_offset();
        if now == previous {
            break;
        }
        assert_eq!(now - previous, 205);
        previous = now;
        steps += 1;
    }
    assert_eq!(steps, 7);
    assert_eq!(grid.scroll_offset(), 1435);
    // the selection's row is drawn even when it was off screen
    let frame = grid.frame(660, 300);
    assert!(frame.tiles.iter().any(|t| t.index == 22 && t.selected));
    grid.home();
    grid.frame(660, 300);
    assert_eq!(grid.scroll_offset(), 1435 - 205);
    let frame = grid.frame(660, 300);
    assert_eq!(frame.tiles[0].index, 0);
}

#[test]
fn detail_view_and_wheel() {
    let mut grid = Grid::new(vec![(400, 200); 9], 200, 200);
    grid.resize(660);
    grid.mouse_wheel_event(-1);
    assert_eq!(grid.selected_index(), 3);
    grid.mouse_wheel_event(1);
    assert_eq!(grid.selected_index(), 0);
    grid.key_down_event(Key::Return);
    assert!(grid.in_detail());
    grid.mouse_wheel_event(-1);
    assert_eq!(grid.selected_index(), 1);
    grid.mouse_wheel_event(1);
    assert_eq!(grid.selected_index(), 0);
    grid.mouse_wheel_event(0);
    assert_eq!(grid.selected_index(), 0);
    let frame = grid.frame(800, 600);
    let d = frame.detail.unwrap();
    assert_eq!((d.index, d.x, d.y, d.width, d.height), (0, 0, 100, 800, 400));
    assert_eq!(grid.key_down_event(Key::Escape), Action::Nothing);
    assert!(!grid.in_detail());
    assert_eq!(grid.key_down_event(Key::Escape), Action::Quit);
    assert_eq!(grid.key_down_event(Key::Other), Action::Nothing);
}

#[test]
fn activation_without_detail_view() {
    let mut grid = Grid::new(square_tiles(5), 200, 200);
    grid.set_allow_detail(false);
    assert!(!grid.allow_detail());
    grid.key_down_event(Key::Right);
    assert_eq!(grid.key_down_event(Key::Return), Action::Activate(1));
    assert!(!grid.in_detail());
}

#[test]
fn config_defaults() {
    let c = GridConfig::new(120, 90);
    assert_eq!((c.max_tile_width, c.max_tile_height, c.margin, c.border_margin), (120, 90, 5, 20));
    let grid = Grid::with_config(
        square_tiles(4),
        GridConfig { max_tile_width: 100, max_tile_height: 50, margin: 0, border_margin: 0 },
    );
    assert_eq!(grid.tile_size(), (50, 50));
    assert_eq!(grid.tile_count(), 4);
    assert_eq!(grid.layout().tiles_per_row, 1);
}

#[test]
fn snapshots_detect_changes() {
    let mut grid = Grid::new(square_tiles(5), 200, 200);
    let before = grid.snapshot();
    assert!(!state_changed(&before, &grid.snapshot()));
    grid.right();
    assert!(state_changed(&before, &grid.snapshot()));
    let before = grid.snapshot();
    grid.resize(300);
    assert!(state_changed(&before, &grid.snapshot()));
}

#[test]
fn replacing_tiles_clamps_selection() {
    let mut grid = Grid::new(square_tiles(23), 200, 200);
    grid.resize(660);
    grid.end();
    for _ in 0..10 {
        grid.frame(660, 300);
    }
    grid.set_tiles(vec![(100, 50); 4]);
    assert_eq!(grid.tile_count(), 4);
    assert_eq!(grid.selected_index(), 3);
    assert_eq!(grid.tile_size(), (200, 100));
    assert_eq!(grid.tiles_per_row(), 3);
    // the old offset lies past the new grid: 20 + 5 * 105
    assert_eq!(grid.scroll_offset(), 545);
    grid.set_tiles(Vec::new());
    assert_eq!(grid.selected_index(), 0);
    assert_eq!(grid.tile_size(), (0, 0));
    assert_eq!(grid.tiles_per_row(), 1);
}

#[test]
fn grid_extent_limit() {
    let config = GridConfig::new(200, 200);
    assert!(config.fits(0));
    assert!(config.fits(1_000_000));
    assert!(!config.fits(usize::MAX));
    let tall = GridConfig { max_tile_width: 1, max_tile_height: u32::MAX, margin: u32::MAX, border_margin: 0 };
    assert!(tall.fits(1_000));
    assert!(!tall.fits(1_000_000_000));
}

#[test]
fn select_tile_under_waits_for_frame() {
    let mut grid = Grid::new(square_tiles(6), 200, 200);
    grid.resize(660);
    let (cx, cy) = center_of(&grid, 5);
    grid.select_tile_under(cx, cy);
    assert_eq!(grid.selected_index(), 0);
    grid.frame(660, 600);
    assert_eq!(grid.selected_index(), 5);
}

#[test]
fn zero_width_tiles_still_center_by_margin() {
    let l = Layout::new(804, 0, 0, 5, 20);
    assert_eq!((l.tiles_per_row, l.center_offset), (1, 2));
    let l = Layout::new(804, 0, 0, 0, 20);
    assert_eq!((l.tiles_per_row, l.center_offset), (1, 0));
}
