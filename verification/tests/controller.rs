use gol::gol::{Gol, Key, COMMON_DIVISORS};
use gol::grid::{CellState, Grid, HEIGHT, WIDTH};
use gol::stamp::PatternKind;

fn alive(grid: &Grid) -> Vec<(usize, usize)> {
    let mut cells = Vec::new();
    for c in 0..WIDTH {
        for r in 0..HEIGHT {
            if grid.get(c, r) == CellState::Alive {
                cells.push((c, r));
            }
        }
    }
    cells
}

fn ordered(mut cells: Vec<(usize, usize)>) -> Vec<(usize, usize)> {
    cells.sort();
    cells
}

fn press(gol: &mut Gol, key: Key, times: usize) {
    for _ in 0..times {
        gol.key_down_event(key);
    }
}

fn stamp_offset(gol: &Gol) -> Option<(usize, usize)> {
    gol.building_cells().map(|stamp| (stamp.pos_x(), stamp.pos_y()))
}

fn stamp_cells(gol: &Gol) -> Option<Vec<(usize, usize)>> {
    gol.building_cells().map(|stamp| alive(stamp.cells()))
}

#[test]
fn the_divisor_table_has_its_eleven_sizes() {
    assert_eq!(COMMON_DIVISORS, [2, 4, 5, 8, 10, 20, 25, 40, 50, 100, 200]);
}

#[test]
fn a_new_controller_starts_empty_at_zoom_one() {
    let gol = Gol::new();
    assert!(!gol.auto_step());
    assert!(gol.display_grid());
    assert_eq!(gol.zoom(), 1);
    assert_eq!(gol.grid_width(), 4);
    assert_eq!(alive(gol.cells()), vec![]);
    assert!(gol.building_cells().is_none());
}

#[test]
fn zoom_in_stops_at_the_last_index() {
    let mut gol = Gol::new();
    for expected in 2..=10 {
        gol.zoom_in();
        assert_eq!(gol.zoom(), expected);
    }
    gol.zoom_in();
    assert_eq!(gol.zoom(), 10);
    assert_eq!(gol.grid_width(), 200);
}

#[test]
fn zoom_off_stops_at_index_one() {
    let mut gol = Gol::new();
    press(&mut gol, Key::PageUp, 3);
    assert_eq!(gol.zoom(), 4);
    for expected in [3, 2, 1, 1, 1] {
        gol.zoom_off();
        assert_eq!(gol.zoom(), expected);
    }
}

#[test]
fn zoom_floor_is_one_from_the_start() {
    let mut gol = Gol::new();
    gol.key_down_event(Key::PageDown);
    assert_eq!(gol.zoom(), 1);
    assert_eq!(gol.grid_width(), 4);
}

#[test]
fn zoom_stays_in_range_over_a_long_walk() {
    let mut gol = Gol::new();
    let keys = [
        Key::PageUp,
        Key::PageUp,
        Key::PageDown,
        Key::PageDown,
        Key::PageDown,
        Key::PageUp,
        Key::A,
        Key::PageUp,
        Key::Key1,
        Key::PageUp,
        Key::Space,
    ];
    for round in 0..20 {
        for (i, &key) in keys.iter().enumerate() {
            gol.key_down_event(key);
            if (round + i) % 3 == 0 {
                gol.key_down_event(Key::PageUp);
            }
            assert!(1 <= gol.zoom() && gol.zoom() <= 10);
        }
    }
    press(&mut gol, Key::PageDown, 50);
    assert_eq!(gol.zoom(), 1);
}

#[test]
fn grid_width_follows_the_table() {
    let mut gol = Gol::new();
    let mut widths = vec![gol.grid_width()];
    for _ in 0..9 {
        gol.key_down_event(Key::PageUp);
        widths.push(gol.grid_width());
    }
    assert_eq!(widths, vec![4, 5, 8, 10, 20, 25, 40, 50, 100, 200]);
}

#[test]
fn a_toggles_auto_step() {
    let mut gol = Gol::new();
    gol.key_down_event(Key::A);
    assert!(gol.auto_step());
    gol.key_down_event(Key::A);
    assert!(!gol.auto_step());
    gol.toggle_auto_step();
    assert!(gol.auto_step());
}

#[test]
fn g_toggles_the_overlay() {
    let mut gol = Gol::new();
    gol.key_down_event(Key::G);
    assert!(!gol.display_grid());
    gol.key_down_event(Key::G);
    assert!(gol.display_grid());
    gol.toggle_display_grid();
    assert!(!gol.display_grid());
}

#[test]
fn the_digits_start_a_stamp_at_the_origin() {
    for (key, cells) in [
        (Key::Key1, vec![(0, 0), (1, 0), (2, 0)]),
        (Key::Key2, vec![(0, 0), (1, 1), (1, 2), (2, 0), (2, 1)]),
    ] {
        let mut gol = Gol::new();
        gol.key_down_event(key);
        assert_eq!(stamp_offset(&gol), Some((0, 0)));
        assert_eq!(stamp_cells(&gol), Some(cells));
        assert_eq!(alive(gol.cells()), vec![]);
    }
    let mut gol = Gol::new();
    gol.key_down_event(Key::Key3);
    assert_eq!(stamp_offset(&gol), Some((0, 0)));
    assert_eq!(stamp_cells(&gol).map(|cells| cells.len()), Some(36));
}

#[test]
fn start_building_takes_each_pattern() {
    let mut gol = Gol::new();
    gol.start_building(PatternKind::Glider);
    assert_eq!(stamp_cells(&gol), Some(vec![(0, 0), (1, 1), (1, 2), (2, 0), (2, 1)]));
    gol.start_building(PatternKind::Blinker);
    assert_eq!(stamp_cells(&gol), Some(vec![(0, 0), (1, 0), (2, 0)]));
    gol.start_building(PatternKind::GliderGun);
    assert_eq!(stamp_cells(&gol).map(|cells| cells.len()), Some(36));
}

#[test]
fn a_new_stamp_inherits_the_offset_of_the_old_one() {
    let mut gol = Gol::new();
    gol.key_down_event(Key::Key1);
    press(&mut gol, Key::Right, 7);
    press(&mut gol, Key::Down, 9);
    assert_eq!(stamp_offset(&gol), Some((7, 9)));
    gol.key_down_event(Key::Key2);
    assert_eq!(stamp_offset(&gol), Some((7, 9)));
    assert_eq!(stamp_cells(&gol), Some(vec![(0, 0), (1, 1), (1, 2), (2, 0), (2, 1)]));
}

#[test]
fn the_offset_is_not_inherited_across_a_commit() {
    let mut gol = Gol::new();
    gol.key_down_event(Key::Key1);
    press(&mut gol, Key::Right, 7);
    gol.key_down_event(Key::Space);
    gol.key_down_event(Key::Key2);
    assert_eq!(stamp_offset(&gol), Some((0, 0)));
}

#[test]
fn the_arrows_move_the_stamp_by_one_cell() {
    let mut gol = Gol::new();
    gol.key_down_event(Key::Key2);
    gol.key_down_event(Key::Right);
    assert_eq!(stamp_offset(&gol), Some((1, 0)));
    gol.key_down_event(Key::Down);
    assert_eq!(stamp_offset(&gol), Some((1, 1)));
    gol.key_down_event(Key::Down);
    assert_eq!(stamp_offset(&gol), Some((1, 2)));
    gol.key_down_event(Key::Up);
    assert_eq!(stamp_offset(&gol), Some((1, 1)));
    gol.key_down_event(Key::Left);
    assert_eq!(stamp_offset(&gol), Some((0, 1)));
    assert_eq!(stamp_cells(&gol), Some(vec![(0, 0), (1, 1), (1, 2), (2, 0), (2, 1)]));
}

#[test]
fn the_stamp_does_not_move_above_or_left_of_zero() {
    let mut gol = Gol::new();
    gol.key_down_event(Key::Key1);
    gol.key_down_event(Key::Up);
    gol.key_down_event(Key::Left);
    let (x, y) = stamp_offset(&gol).unwrap();
    assert!(x < WIDTH && y < HEIGHT);
    gol.key_down_event(Key::Space);
    assert_eq!(alive(gol.cells()), vec![(0, 0), (1, 0), (2, 0)]);
}

#[test]
fn the_stamp_may_move_past_the_grid() {
    let mut gol = Gol::new();
    gol.key_down_event(Key::Key1);
    press(&mut gol, Key::Right, 199);
    press(&mut gol, Key::Down, 200);
    assert_eq!(stamp_offset(&gol), Some((199, 200)));
    press(&mut gol, Key::Up, 51);
    gol.key_down_event(Key::Space);
    assert_eq!(alive(gol.cells()), vec![(199, 149)]);
}

#[test]
fn the_arrows_do_nothing_without_a_stamp() {
    let mut gol = Gol::new();
    for key in [Key::Up, Key::Down, Key::Left, Key::Right] {
        gol.key_down_event(key);
    }
    assert!(gol.building_cells().is_none());
    assert_eq!(alive(gol.cells()), vec![]);
    assert_eq!(gol.zoom(), 1);
    assert!(!gol.auto_step());
    assert!(gol.display_grid());
}

#[test]
fn other_keys_change_nothing() {
    let mut gol = Gol::new();
    gol.key_down_event(Key::Key1);
    gol.key_down_event(Key::Right);
    gol.key_down_event(Key::Other);
    assert_eq!(stamp_offset(&gol), Some((1, 0)));
    assert_eq!(alive(gol.cells()), vec![]);
    assert_eq!(gol.zoom(), 1);
    assert!(!gol.auto_step());
    assert!(gol.display_grid());
}

#[test]
fn build_commits_the_stamp_and_leaves_stamp_mode() {
    let mut gol = Gol::new();
    gol.start_building(PatternKind::Blinker);
    gol.build();
    assert!(gol.building_cells().is_none());
    assert_eq!(alive(gol.cells()), vec![(0, 0), (1, 0), (2, 0)]);
}

#[test]
fn build_without_a_stamp_changes_nothing() {
    let mut gol = Gol::new();
    gol.build();
    assert!(gol.building_cells().is_none());
    assert_eq!(alive(gol.cells()), vec![]);
}

#[test]
fn next_step_advances_the_grid_and_nothing_else() {
    let mut gol = Gol::new();
    gol.key_down_event(Key::Key1);
    press(&mut gol, Key::Right, 50);
    press(&mut gol, Key::Down, 50);
    gol.key_down_event(Key::Space);
    gol.key_down_event(Key::Key2);
    gol.next_step();
    assert_eq!(alive(gol.cells()), vec![(51, 49), (51, 50), (51, 51)]);
    assert_eq!(stamp_offset(&gol), Some((0, 0)));
    assert_eq!(gol.zoom(), 1);
    assert!(!gol.auto_step());
}

#[test]
fn space_steps_once_in_free_mode() {
    let mut gol = Gol::new();
    gol.key_down_event(Key::Key1);
    press(&mut gol, Key::Right, 50);
    press(&mut gol, Key::Down, 50);
    gol.key_down_event(Key::Space);
    assert_eq!(alive(gol.cells()), vec![(50, 50), (51, 50), (52, 50)]);
    gol.key_down_event(Key::Space);
    assert_eq!(alive(gol.cells()), vec![(51, 49), (51, 50), (51, 51)]);
}

#[test]
fn space_does_not_step_while_a_stamp_is_pending() {
    let mut gol = Gol::new();
    gol.key_down_event(Key::Key1);
    press(&mut gol, Key::Right, 50);
    press(&mut gol, Key::Down, 50);
    gol.key_down_event(Key::Space);
    gol.key_down_event(Key::Key2);
    press(&mut gol, Key::Right, 100);
    press(&mut gol, Key::Down, 100);
    gol.key_down_event(Key::Space);
    assert_eq!(
        alive(gol.cells()),
        ordered(vec![
            (50, 50),
            (51, 50),
            (52, 50),
            (100, 100),
            (102, 100),
            (102, 101),
            (101, 101),
            (101, 102),
        ])
    );
}

#[test]
fn space_is_ignored_while_the_ticker_steps() {
    let mut gol = Gol::new();
    gol.key_down_event(Key::Key1);
    press(&mut gol, Key::Right, 50);
    press(&mut gol, Key::Down, 50);
    gol.key_down_event(Key::Space);
    gol.key_down_event(Key::A);
    gol.key_down_event(Key::Space);
    assert_eq!(alive(gol.cells()), vec![(50, 50), (51, 50), (52, 50)]);
    gol.update();
    assert_eq!(alive(gol.cells()), vec![(51, 49), (51, 50), (51, 51)]);
    gol.key_down_event(Key::Space);
    assert_eq!(alive(gol.cells()), vec![(51, 49), (51, 50), (51, 51)]);
}

#[test]
fn space_still_commits_while_the_ticker_steps() {
    let mut gol = Gol::new();
    gol.key_down_event(Key::A);
    gol.key_down_event(Key::Key1);
    press(&mut gol, Key::Right, 50);
    press(&mut gol, Key::Down, 50);
    gol.key_down_event(Key::Space);
    assert!(gol.building_cells().is_none());
    assert_eq!(alive(gol.cells()), vec![(50, 50), (51, 50), (52, 50)]);
}

#[test]
fn update_steps_only_with_auto_step() {
    let mut gol = Gol::new();
    gol.key_down_event(Key::Key1);
    press(&mut gol, Key::Right, 50);
    press(&mut gol, Key::Down, 50);
    gol.key_down_event(Key::Space);
    gol.update();
    assert_eq!(alive(gol.cells()), vec![(50, 50), (51, 50), (52, 50)]);
    gol.toggle_auto_step();
    gol.update();
    assert_eq!(alive(gol.cells()), vec![(51, 49), (51, 50), (51, 51)]);
    gol.update();
    assert_eq!(alive(gol.cells()), vec![(50, 50), (51, 50), (52, 50)]);
}

#[test]
fn update_leaves_the_pending_stamp_alone() {
    let mut gol = Gol::new();
    gol.key_down_event(Key::A);
    gol.key_down_event(Key::Key2);
    press(&mut gol, Key::Right, 3);
    gol.update();
    assert_eq!(stamp_offset(&gol), Some((3, 0)));
    assert_eq!(alive(gol.cells()), vec![]);
}

#[test]
fn stamp_commit_then_clear() {
    let mut gol = Gol::new();
    gol.key_down_event(Key::Key1);
    press(&mut gol, Key::Right, 50);
    press(&mut gol, Key::Down, 50);
    gol.key_down_event(Key::Space);
    assert_eq!(alive(gol.cells()), vec![(50, 50), (51, 50), (52, 50)]);
    assert!(gol.building_cells().is_none());
    gol.key_down_event(Key::Space);
    assert_eq!(alive(gol.cells()), vec![(51, 49), (51, 50), (51, 51)]);
    assert!(gol.building_cells().is_none());
}

#[test]
fn stamp_commit_at_the_origin_then_step() {
    let mut gol = Gol::new();
    gol.key_down_event(Key::Key1);
    gol.key_down_event(Key::Space);
    assert_eq!(alive(gol.cells()), vec![(0, 0), (1, 0), (2, 0)]);
    assert!(gol.building_cells().is_none());
    gol.key_down_event(Key::Space);
    assert_eq!(alive(gol.cells()), vec![(1, 1)]);
}
