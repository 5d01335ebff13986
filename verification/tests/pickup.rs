use snake_core::apple::{reduce_draw, Apple};
use snake_core::board::{Position, BOARD_HEIGHT, BOARD_MAX_X, BOARD_MAX_Y, BOARD_WIDTH};

fn at(x: i32, y: i32) -> Position {
    Position { x, y }
}

#[test]
fn draw_is_reduced_by_magnitude() {
    assert_eq!(reduce_draw(0, 15), 0);
    assert_eq!(reduce_draw(14, 15), 14);
    assert_eq!(reduce_draw(15, 15), 0);
    assert_eq!(reduce_draw(16, 15), 1);
    assert_eq!(reduce_draw(-1, 15), 1);
    assert_eq!(reduce_draw(-14, 15), 14);
    assert_eq!(reduce_draw(-15, 15), 0);
    assert_eq!(reduce_draw(-16, 15), 1);
    assert_eq!(reduce_draw(9, 10), 9);
    assert_eq!(reduce_draw(10, 10), 0);
    assert_eq!(reduce_draw(100, 10), 0);
    assert_eq!(reduce_draw(-109, 10), 9);
    assert_eq!(reduce_draw(7, 1), 0);
}

#[test]
fn extreme_draws_are_reduced_like_any_other() {
    assert_eq!(reduce_draw(i32::MAX, 15), 7);
    assert_eq!(reduce_draw(i32::MIN, 15), 8);
    assert_eq!(reduce_draw(i32::MAX, 10), 7);
    assert_eq!(reduce_draw(i32::MIN, 10), 8);
    assert_eq!(reduce_draw(i32::MIN, i32::MAX), 1);
    assert_eq!(reduce_draw(i32::MIN + 1, i32::MAX), 0);
}

#[test]
fn board_is_fifteen_by_ten_cells() {
    assert_eq!(BOARD_WIDTH, 15);
    assert_eq!(BOARD_HEIGHT, 10);
    assert_eq!(BOARD_MAX_X, BOARD_WIDTH - 1);
    assert_eq!(BOARD_MAX_Y, BOARD_HEIGHT - 1);
}

#[test]
fn pickup_is_placed_from_two_draws() {
    assert_eq!(Apple::pick_random_pos(0, 0), at(0, 0));
    assert_eq!(Apple::pick_random_pos(20, 20), at(5, 0));
    assert_eq!(Apple::pick_random_pos(-20, -20), at(5, 0));
    assert_eq!(Apple::pick_random_pos(13, 8), at(13, 8));
    assert_eq!(Apple::pick_random_pos(1014776995, -476057059), at(10, 9));
    assert_eq!(Apple::new(27, -10).position, at(12, 0));
}

#[test]
fn first_draw_gives_column_and_second_gives_row() {
    assert_eq!(Apple::pick_random_pos(3, 0), at(3, 0));
    assert_eq!(Apple::pick_random_pos(0, 3), at(0, 3));
    assert_eq!(Apple::pick_random_pos(12, 12), at(12, 2));
}

#[test]
fn last_column_and_row_are_reached() {
    assert_eq!(Apple::pick_random_pos(14, 9), at(14, 9));
    assert_eq!(Apple::pick_random_pos(-14, -9), at(14, 9));
    assert_eq!(Apple::pick_random_pos(29, -19), at(14, 9));
    assert_eq!(Apple::pick_random_pos(15, 10), at(0, 0));
    assert_eq!(Apple::pick_random_pos(14, 0), at(14, 0));
    assert_eq!(Apple::pick_random_pos(0, 9), at(0, 9));
}

#[test]
fn every_cell_of_the_board_is_selected_by_its_coordinates() {
    for x in 0..=BOARD_MAX_X {
        for y in 0..=BOARD_MAX_Y {
            assert_eq!(Apple::pick_random_pos(x, y), at(x, y));
            assert_eq!(Apple::pick_random_pos(-x, -y), at(x, y));
            assert_eq!(Apple::pick_random_pos(x + 15 * 7, y + 10 * 11), at(x, y));
        }
    }
}

#[test]
fn pickup_lies_on_the_board_and_fills_it() {
    let mut seen = [[false; 10]; 15];
    let mut state: i32 = 1;
    for _ in 0..4000 {
        state = state.wrapping_mul(1664525).wrapping_add(1013904223);
        let draw_x: i32 = state >> 8;
        state = state.wrapping_mul(1664525).wrapping_add(1013904223);
        let draw_y: i32 = state >> 8;
        let cell = Apple::pick_random_pos(draw_x, draw_y);
        assert!(cell.is_on_board());
        assert!(0 <= cell.x && cell.x < 15);
        assert!(0 <= cell.y && cell.y < 10);
        seen[cell.x as usize][cell.y as usize] = true;
    }
    assert!(seen.iter().all(|column| column.iter().all(|&cell| cell)));
}

#[test]
fn move_apple_forgets_the_old_cell() {
    let mut first = Apple { position: at(1, 1) };
    let mut second = Apple { position: at(12, 7) };
    first.move_apple(33, -5);
    second.move_apple(33, -5);
    assert_eq!(first.position, at(3, 5));
    assert_eq!(first, second);
}

#[test]
fn same_draw_stream_gives_same_cells() {
    let stream: [i32; 12] = [
        912_345_678,
        -5,
        0,
        i32::MIN,
        i32::MAX,
        27,
        -2_000_000_000,
        14,
        9,
        -9,
        123_456,
        -654_321,
    ];
    let run = |start: Position| {
        let mut apple = Apple { position: start };
        let mut visited: Vec<Position> = Vec::new();
        for pair in stream.chunks(2) {
            apple.move_apple(pair[0], pair[1]);
            visited.push(apple.position);
        }
        visited
    };
    let first = run(at(0, 0));
    let second = run(at(13, 8));
    assert_eq!(first, second);
    assert_eq!(
        first,
        vec![at(3, 5), at(0, 8), at(7, 7), at(5, 4), at(9, 9), at(6, 1)]
    );
}
