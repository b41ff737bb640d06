use flappy_dragon::config::{FLAP_IMPULSE, TERMINAL_VELOCITY, VELOCITY_UNITS_PER_ROW};
use flappy_dragon::draw::{DrawCommand, Rgb};
use flappy_dragon::player::Player;

#[test]
fn new_player_is_at_rest() {
    let player = Player::new(5, 25);
    assert_eq!(player, Player { x: 5, y: 25, velocity: 0 });
}

#[test]
fn free_fall_velocity_grows_to_the_cap() {
    let mut player = Player::new(0, 0);
    for n in 1..=30 {
        player.gravity_and_move();
        assert_eq!(player.velocity, std::cmp::min(TERMINAL_VELOCITY, n));
        assert!(player.velocity <= TERMINAL_VELOCITY);
        let rows_per_step = f64::from(player.velocity) / f64::from(VELOCITY_UNITS_PER_ROW);
        let expected = f64::min(2.0, 0.2 * f64::from(n));
        assert!((rows_per_step - expected).abs() < 1e-9);
        assert_eq!(player.x, n);
    }
}

#[test]
fn free_fall_rows_are_the_velocity_rounded_toward_zero() {
    let mut player = Player::new(5, 25);
    let mut rows = Vec::new();
    for _ in 0..12 {
        player.gravity_and_move();
        rows.push(player.y);
    }
    assert_eq!(rows, vec![25, 25, 25, 25, 26, 27, 28, 29, 30, 32, 34, 36]);
}

#[test]
fn velocity_stays_at_the_cap() {
    let mut player = Player { x: 0, y: 0, velocity: TERMINAL_VELOCITY };
    player.gravity_and_move();
    assert_eq!(player, Player { x: 1, y: 2, velocity: 10 });
}

#[test]
fn flap_takes_the_impulse_off_any_velocity() {
    for velocity in [-37, -10, -1, 0, 3, 10] {
        let mut player = Player { x: 7, y: 9, velocity };
        player.flap();
        assert_eq!(player, Player { x: 7, y: 9, velocity: velocity - FLAP_IMPULSE });
    }
}

#[test]
fn two_flaps_stack_before_the_next_step() {
    let mut player = Player::new(5, 25);
    player.flap();
    player.flap();
    assert_eq!(player.velocity, -20);
    assert_eq!(player.y, 25);
    player.gravity_and_move();
    assert_eq!(player, Player { x: 6, y: 22, velocity: -19 });
}

#[test]
fn upward_move_rounds_toward_zero() {
    let mut player = Player { x: 0, y: 10, velocity: -5 };
    player.gravity_and_move();
    assert_eq!(player, Player { x: 1, y: 10, velocity: -4 });
    let mut player = Player { x: 0, y: 10, velocity: -6 };
    player.gravity_and_move();
    assert_eq!(player, Player { x: 1, y: 9, velocity: -5 });
}

#[test]
fn row_is_kept_at_the_top_of_the_screen() {
    let mut player = Player { x: 0, y: 1, velocity: -21 };
    player.gravity_and_move();
    assert_eq!(player, Player { x: 1, y: 0, velocity: -20 });
    let mut player = Player { x: 0, y: -3, velocity: 0 };
    player.gravity_and_move();
    assert_eq!(player.y, 0);
}

#[test]
fn player_is_painted_in_the_first_column() {
    let player = Player { x: 40, y: 17, velocity: 3 };
    assert_eq!(
        player.render(),
        DrawCommand::Put {
            x: 0,
            y: 17,
            fg: Rgb { r: 255, g: 255, b: 0 },
            bg: Rgb { r: 0, g: 0, b: 0 },
            glyph: 64,
        }
    );
}

#[test]
fn player_glyph_and_colours_are_those_of_the_toolkit() {
    let (r, g, b) = bracket_lib::prelude::YELLOW;
    let black = bracket_lib::prelude::BLACK;
    match Player::new(0, 0).render() {
        DrawCommand::Put { fg, bg, glyph, .. } => {
            assert_eq!(fg, Rgb { r, g, b });
            assert_eq!((bg.r, bg.g, bg.b), black);
            assert_eq!(glyph, bracket_lib::prelude::to_cp437('@'));
        }
        other => panic!("unexpected command {:?}", other),
    }
}
