use snake_core::background::{
    places_prop, prop_tile, FadeDirection, Mode, NB_PROPS_TILES, N_TILES_X, N_TILES_Y,
};
use snake_core::board::{
    Position, BOARD_MAX_X, BOARD_MAX_Y, BOARD_MIN_X, BOARD_MIN_Y, OBJECTS_SIZE, SCREEN_HEIGHT,
    SCREEN_WIDTH, TILE_SIZE,
};
use snake_core::direction::Direction;
use snake_core::round::{opening_steps, transition_steps, Phase, Step, INITIAL_LENGTH};
use snake_core::snake::{Snake, TickResult};

fn at(x: i32, y: i32) -> Position {
    Position { x, y }
}

#[test]
fn board_is_screen_in_cells() {
    assert_eq!(BOARD_MIN_X, 0);
    assert_eq!(BOARD_MIN_Y, 0);
    assert_eq!(BOARD_MAX_X, SCREEN_WIDTH / OBJECTS_SIZE - 1);
    assert_eq!(BOARD_MAX_Y, SCREEN_HEIGHT / OBJECTS_SIZE - 1);
    assert_eq!((BOARD_MAX_X, BOARD_MAX_Y), (14, 9));
    assert_eq!(N_TILES_X as i32 * TILE_SIZE, SCREEN_WIDTH);
    assert_eq!(N_TILES_Y as i32 * TILE_SIZE, SCREEN_HEIGHT);
}

#[test]
fn cells_on_and_off_board() {
    assert!(at(0, 0).is_on_board());
    assert!(at(14, 9).is_on_board());
    assert!(at(14, 0).is_on_board());
    assert!(at(0, 9).is_on_board());
    assert!(!at(-1, 0).is_on_board());
    assert!(!at(0, -1).is_on_board());
    assert!(!at(15, 9).is_on_board());
    assert!(!at(14, 10).is_on_board());
    assert!(!at(i32::MIN, i32::MAX).is_on_board());
}

#[test]
fn cell_arithmetic() {
    assert_eq!(at(3, 4).offset_by(at(-1, 2)), at(2, 6));
    assert_eq!(at(3, 4).offset_from(at(5, 1)), at(-2, 3));
    assert_eq!(at(0, 5).offset_by(at(0, 5).offset_from(at(1, 5))), at(-1, 5));
    assert_eq!(at(3, 4).to_pixels(), at(48, 64));
    assert_eq!(at(14, 9).to_pixels(), at(224, 144));
    assert_eq!(at(-1, 0).to_pixels(), at(-16, 0));
}

#[test]
fn direction_reverses() {
    assert_eq!(Direction::UP.opposite(), Direction::DOWN);
    assert_eq!(Direction::DOWN.opposite(), Direction::UP);
    assert_eq!(Direction::LEFT.opposite(), Direction::RIGHT);
    assert_eq!(Direction::RIGHT.opposite(), Direction::LEFT);
}

#[test]
fn first_pressed_button_wins() {
    assert_eq!(Direction::from_pressed(false, false, false, false), None);
    assert_eq!(Direction::from_pressed(true, false, false, false), Some(Direction::UP));
    assert_eq!(Direction::from_pressed(false, true, false, false), Some(Direction::DOWN));
    assert_eq!(Direction::from_pressed(false, false, true, false), Some(Direction::LEFT));
    assert_eq!(Direction::from_pressed(false, false, false, true), Some(Direction::RIGHT));
    assert_eq!(Direction::from_pressed(true, true, true, true), Some(Direction::UP));
    assert_eq!(Direction::from_pressed(false, true, true, true), Some(Direction::DOWN));
    assert_eq!(Direction::from_pressed(false, false, true, true), Some(Direction::LEFT));
}

#[test]
fn phases_follow_in_a_circle() {
    assert_eq!(Phase::initial(), Phase::Splash);
    assert_eq!(Phase::Splash.on_any_button(), Phase::Playing);
    assert_eq!(Phase::Playing.on_tick(TickResult::Died), Phase::Dead);
    assert_eq!(Phase::Dead.on_any_button(), Phase::Splash);
}

#[test]
fn round_ends_only_with_death() {
    assert_eq!(Phase::Playing.on_tick(TickResult::Moved), Phase::Playing);
    assert_eq!(Phase::Playing.on_tick(TickResult::GrewAndMoved), Phase::Playing);
    assert_eq!(Phase::Playing.on_any_button(), Phase::Playing);
    for result in [TickResult::Moved, TickResult::GrewAndMoved, TickResult::Died] {
        assert_eq!(Phase::Splash.on_tick(result), Phase::Splash);
        assert_eq!(Phase::Dead.on_tick(result), Phase::Dead);
    }
}

#[test]
fn backdrop_of_each_phase() {
    assert_eq!(Phase::Splash.shown_mode(), Mode::SPLASH);
    assert_eq!(Phase::Playing.shown_mode(), Mode::GAME);
    assert_eq!(Phase::Dead.shown_mode(), Mode::GAME);
    assert!(Mode::SPLASH.shows_splash());
    assert!(!Mode::GAME.shows_splash());
}

#[test]
fn screen_fades_around_a_change_of_backdrop() {
    assert_eq!(opening_steps(), vec![Step::Show(Mode::SPLASH)]);
    assert_eq!(
        transition_steps(Phase::Splash, Phase::Playing),
        vec![
            Step::Fade(FadeDirection::FadeOut),
            Step::Show(Mode::GAME),
            Step::Fade(FadeDirection::FadeIn)
        ]
    );
    assert_eq!(
        transition_steps(Phase::Dead, Phase::Splash),
        vec![
            Step::Fade(FadeDirection::FadeOut),
            Step::Show(Mode::SPLASH),
            Step::Fade(FadeDirection::FadeIn)
        ]
    );
    assert_eq!(transition_steps(Phase::Playing, Phase::Dead), vec![]);
    assert_eq!(transition_steps(Phase::Playing, Phase::Playing), vec![]);
    assert_eq!(transition_steps(Phase::Splash, Phase::Splash), vec![]);
}

#[test]
fn fade_in_starts_from_black() {
    assert!(FadeDirection::FadeIn.starts_black());
    assert!(!FadeDirection::FadeOut.starts_black());
}

#[test]
fn round_starts_with_three_cells() {
    assert_eq!(INITIAL_LENGTH, 3);
    let snake = Snake::new(INITIAL_LENGTH, 2).unwrap();
    assert_eq!(snake.length(), 3);
}

#[test]
fn two_tiles_in_a_hundred_are_decorated() {
    assert!(places_prop(0));
    assert!(places_prop(1));
    assert!(!places_prop(2));
    assert!(!places_prop(99));
    assert!(places_prop(100));
    assert!(places_prop(301));
    assert!(!places_prop(-1));
    assert!(!places_prop(-98));
    assert!(places_prop(-99));
    assert!(places_prop(-100));
    assert!(!places_prop(i32::MAX));
    assert!(!places_prop(i32::MIN));
    let decorated: usize = (0..1000).filter(|&draw| places_prop(draw)).count();
    assert_eq!(decorated, 20);
}

#[test]
fn decoration_tile_is_draw_modulo_three() {
    assert_eq!(NB_PROPS_TILES, 3);
    assert_eq!(prop_tile(0), 0);
    assert_eq!(prop_tile(1), 1);
    assert_eq!(prop_tile(2), 2);
    assert_eq!(prop_tile(3), 0);
    assert_eq!(prop_tile(-1), 2);
    assert_eq!(prop_tile(-2), 1);
    assert_eq!(prop_tile(-3), 0);
    assert_eq!(prop_tile(i32::MAX), 1);
    assert_eq!(prop_tile(i32::MIN), 1);
}
