use gol_backend::{Cell, Universe};

fn with_alive(width: u32, height: u32, alive: &[(u32, u32)]) -> Universe {
    let mut universe = Universe::new(width, height);
    for &(column, row) in alive {
        universe.toggle_cell(column, row);
    }
    universe
}

fn alive_positions(universe: &Universe) -> Vec<(u32, u32)> {
    let mut found = Vec::new();
    for row in 0..universe.height() {
        for column in 0..universe.width() {
            if universe.cells()[universe.get_index(column, row)] == Cell::Alive {
                found.push((column, row));
            }
        }
    }
    found
}

#[test]
fn new_universe_is_all_dead() {
    let universe = Universe::new(7, 5);
    assert_eq!(universe.width(), 7);
    assert_eq!(universe.height(), 5);
    assert_eq!(universe.cells().len(), 35);
    assert!(universe.cells().iter().all(|&cell| cell == Cell::Dead));
}

#[test]
fn get_index_is_row_major() {
    let universe = Universe::new(4, 3);
    assert_eq!(universe.get_index(0, 0), 0);
    assert_eq!(universe.get_index(3, 0), 3);
    assert_eq!(universe.get_index(0, 1), 4);
    assert_eq!(universe.get_index(2, 1), 6);
    assert_eq!(universe.get_index(3, 2), 11);
}

#[test]
fn reset_kills_every_cell() {
    let mut universe = with_alive(6, 4, &[(0, 0), (5, 3), (2, 1), (3, 3)]);
    universe.tick();
    universe.toggle_cell(1, 1);
    universe.reset();
    assert_eq!(universe.width(), 6);
    assert_eq!(universe.height(), 4);
    assert_eq!(universe.cells(), vec![Cell::Dead; 24].as_slice());
}

#[test]
fn reset_twice_is_reset_once() {
    let mut once = with_alive(3, 3, &[(1, 1), (2, 0)]);
    let mut twice = with_alive(3, 3, &[(1, 1), (2, 0)]);
    once.reset();
    twice.reset();
    twice.reset();
    assert_eq!(once.cells(), twice.cells());
}

#[test]
fn toggle_flips_one_cell() {
    let mut universe = Universe::new(4, 3);
    universe.toggle_cell(2, 1);
    let mut expected = vec![Cell::Dead; 12];
    expected[6] = Cell::Alive;
    assert_eq!(universe.cells(), expected.as_slice());
}

#[test]
fn toggle_twice_restores_the_cell() {
    let mut universe = with_alive(5, 4, &[(0, 0), (4, 3), (2, 2)]);
    let before = universe.cells().to_vec();
    for row in 0..4 {
        for column in 0..5 {
            universe.toggle_cell(column, row);
            assert_ne!(universe.cells(), before.as_slice());
            universe.toggle_cell(column, row);
            assert_eq!(universe.cells(), before.as_slice());
        }
    }
}

#[test]
fn resize_discards_the_earlier_state() {
    let mut universe = with_alive(3, 3, &[(0, 0), (1, 1), (2, 2)]);
    universe.tick();
    universe.resize(5, 2);
    assert_eq!(universe.width(), 5);
    assert_eq!(universe.height(), 2);
    assert_eq!(universe.cells(), vec![Cell::Dead; 10].as_slice());
    universe.resize(2, 2);
    assert_eq!(universe.cells(), vec![Cell::Dead; 4].as_slice());
    universe.toggle_cell(1, 1);
    universe.resize(2, 2);
    assert_eq!(universe.cells(), vec![Cell::Dead; 4].as_slice());
}

#[test]
fn resized_universe_steps_at_its_new_size() {
    let mut universe = Universe::new(2, 2);
    universe.resize(5, 5);
    for &(column, row) in &[(1, 0), (1, 1), (1, 2)] {
        universe.toggle_cell(column, row);
    }
    universe.tick();
    assert_eq!(alive_positions(&universe), vec![(0, 1), (1, 1), (2, 1)]);
}

#[test]
fn neighbour_count_wraps_around_the_edges() {
    let universe = with_alive(3, 3, &[(1, 1)]);
    for row in 0..3 {
        for column in 0..3 {
            let expected = if (column, row) == (1, 1) { 0 } else { 1 };
            assert_eq!(universe.live_neighbour_count(column, row), expected);
        }
    }
}

#[test]
fn neighbour_count_reaches_across_corners() {
    let universe = with_alive(5, 4, &[(4, 3)]);
    assert_eq!(universe.live_neighbour_count(0, 0), 1);
    assert_eq!(universe.live_neighbour_count(3, 0), 1);
    assert_eq!(universe.live_neighbour_count(0, 2), 1);
    assert_eq!(universe.live_neighbour_count(1, 0), 0);
    assert_eq!(universe.live_neighbour_count(2, 2), 0);
    assert_eq!(universe.live_neighbour_count(4, 3), 0);
}

#[test]
fn neighbour_count_excludes_the_cell_itself() {
    let universe = with_alive(5, 5, &[(2, 2), (1, 1), (3, 3), (2, 1)]);
    assert_eq!(universe.live_neighbour_count(2, 2), 3);
    assert_eq!(universe.live_neighbour_count(0, 4), 0);
}

#[test]
fn neighbour_count_counts_a_position_each_time_it_is_reached() {
    let lone = with_alive(1, 1, &[(0, 0)]);
    assert_eq!(lone.live_neighbour_count(0, 0), 8);

    let full = with_alive(2, 2, &[(0, 0), (1, 0), (0, 1), (1, 1)]);
    for row in 0..2 {
        for column in 0..2 {
            assert_eq!(full.live_neighbour_count(column, row), 8);
        }
    }

    let strip = with_alive(4, 1, &[(1, 0)]);
    assert_eq!(strip.live_neighbour_count(1, 0), 2);
    assert_eq!(strip.live_neighbour_count(0, 0), 3);
    assert_eq!(strip.live_neighbour_count(2, 0), 3);
    assert_eq!(strip.live_neighbour_count(3, 0), 0);
}

#[test]
fn lonely_cell_dies() {
    let mut universe = with_alive(5, 5, &[(2, 2)]);
    assert_eq!(universe.live_neighbour_count(2, 2), 0);
    universe.tick();
    assert_eq!(universe.cells(), vec![Cell::Dead; 25].as_slice());
}

#[test]
fn full_two_by_two_grid_dies_of_overpopulation() {
    let mut universe = with_alive(2, 2, &[(0, 0), (1, 0), (0, 1), (1, 1)]);
    universe.tick();
    assert_eq!(universe.cells(), vec![Cell::Dead; 4].as_slice());
}

#[test]
fn block_is_a_still_life() {
    let block = [(1, 1), (2, 1), (1, 2), (2, 2)];
    let mut universe = with_alive(4, 4, &block);
    let before = universe.cells().to_vec();
    for row in 1..3 {
        for column in 1..3 {
            assert_eq!(universe.live_neighbour_count(column, row), 3);
        }
    }
    for _ in 0..25 {
        universe.tick();
        assert_eq!(universe.cells(), before.as_slice());
    }
}

#[test]
fn blinker_oscillates_with_period_two() {
    let mut universe = with_alive(5, 5, &[(1, 0), (1, 1), (1, 2)]);
    let before = universe.cells().to_vec();
    universe.tick();
    assert_eq!(alive_positions(&universe), vec![(0, 1), (1, 1), (2, 1)]);
    universe.tick();
    assert_eq!(universe.cells(), before.as_slice());
    for _ in 0..10 {
        universe.tick();
        assert_ne!(universe.cells(), before.as_slice());
        universe.tick();
        assert_eq!(universe.cells(), before.as_slice());
    }
}

#[test]
fn glider_moves_one_cell_diagonally_in_four_ticks() {
    let mut universe = with_alive(8, 8, &[(1, 0), (2, 1), (0, 2), (1, 2), (2, 2)]);
    for _ in 0..4 {
        universe.tick();
    }
    assert_eq!(alive_positions(&universe), vec![(2, 1), (3, 2), (1, 3), (2, 3), (3, 3)]);
}

#[test]
fn three_neighbours_give_birth() {
    let mut universe = with_alive(5, 5, &[(1, 1), (2, 1), (1, 2)]);
    universe.tick();
    assert_eq!(alive_positions(&universe), vec![(1, 1), (2, 1), (1, 2), (2, 2)]);
}

#[test]
fn four_neighbours_kill() {
    let mut universe = with_alive(5, 5, &[(2, 2), (1, 2), (3, 2), (2, 1), (2, 3)]);
    assert_eq!(universe.live_neighbour_count(2, 2), 4);
    universe.tick();
    assert_eq!(universe.cells()[universe.get_index(2, 2)], Cell::Dead);
}

#[test]
fn tick_depends_on_the_cells_alone() {
    let pattern = [(1, 0), (2, 1), (0, 2), (1, 2), (2, 2), (5, 5), (5, 6)];
    let mut first = with_alive(7, 7, &pattern);
    let mut second = with_alive(7, 7, &pattern);
    for _ in 0..12 {
        first.tick();
        second.tick();
        assert_eq!(first.cells(), second.cells());
    }
}

#[test]
fn tick_ignores_what_earlier_ticks_left_behind() {
    let mut used = with_alive(6, 6, &[(1, 0), (1, 1), (1, 2), (4, 4)]);
    used.tick();
    used.tick();
    used.tick();
    let alive = alive_positions(&used);
    let mut fresh = with_alive(6, 6, &alive);
    assert_eq!(used.cells(), fresh.cells());
    used.tick();
    fresh.tick();
    assert_eq!(used.cells(), fresh.cells());
}

#[test]
fn tick_on_a_single_row() {
    let mut universe = with_alive(4, 1, &[(1, 0)]);
    universe.tick();
    assert_eq!(alive_positions(&universe), vec![(0, 0), (1, 0), (2, 0)]);
}

#[test]
fn tick_on_a_single_cell() {
    let mut universe = with_alive(1, 1, &[(0, 0)]);
    universe.tick();
    assert_eq!(universe.cells(), &[Cell::Dead]);
    universe.tick();
    assert_eq!(universe.cells(), &[Cell::Dead]);
}
