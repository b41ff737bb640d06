use flappy_dragon::config::{FRAME_DURATION, GAP_MAX, GAP_MIN, SCREEN_HEIGHT, SCREEN_WIDTH};
use flappy_dragon::draw::{DrawCommand, Frame, Rgb};
use flappy_dragon::obstacle::Obstacle;
use flappy_dragon::player::Player;
use flappy_dragon::state::{GameMode, Key, State};

const STEP: u32 = FRAME_DURATION + 1;

fn playing(player: Player, obstacle: Obstacle, score: i32) -> State {
    State { player, frame_time: 0, obstacle, mode: GameMode::Playing, score }
}

fn centered(y: i32, text: &str) -> DrawCommand {
    DrawCommand::PrintCentered { y, text: String::from(text) }
}

#[test]
fn new_game_shows_the_menu() {
    let state = State::new();
    assert_eq!(state.mode, GameMode::Menu);
    assert_eq!(state.score, 0);
    assert_eq!(state.frame_time, 0);
    assert_eq!(state.player, Player { x: 5, y: 25, velocity: 0 });
    assert_eq!(state.obstacle.x, SCREEN_WIDTH);
    assert_eq!(state.obstacle.size, 20);
    assert!(GAP_MIN <= state.obstacle.gap_y && state.obstacle.gap_y < GAP_MAX);
    assert!(state.is_wf());
}

#[test]
fn new_game_with_a_given_gap() {
    let state = State::with_gap(31);
    assert_eq!(
        state,
        State {
            player: Player { x: 5, y: 25, velocity: 0 },
            frame_time: 0,
            obstacle: Obstacle { x: 80, gap_y: 31, size: 20 },
            mode: GameMode::Menu,
            score: 0,
        }
    );
    assert!(state.is_wf());
}

#[test]
fn round_from_menu_to_end_and_back() {
    let mut state = State::new();
    assert_eq!(state.mode, GameMode::Menu);
    assert_eq!(state.score, 0);

    state.tick(16_000, Some(Key::P));
    assert_eq!(state.mode, GameMode::Playing);
    assert_eq!(state.player, Player { x: 5, y: 25, velocity: 0 });

    let obstacle = state.obstacle;
    let mut steps = 0;
    while state.mode == GameMode::Playing {
        assert!(state.player.y <= SCREEN_HEIGHT);
        assert!(state.can_tick(STEP, None));
        state.tick(STEP, None);
        steps += 1;
        assert!(steps <= 100);
    }
    assert_eq!(state.mode, GameMode::End);
    assert!(state.player.y > SCREEN_HEIGHT);
    assert_eq!(steps, 20);
    assert_eq!(state.player, Player { x: 25, y: 52, velocity: 10 });
    assert_eq!(state.score, 0);

    state.tick(16_000, Some(Key::P));
    assert_eq!(state.mode, GameMode::Playing);
    assert_eq!(state.player, Player { x: 5, y: 25, velocity: 0 });
    assert_eq!(state.frame_time, 0);
    assert_eq!(state.score, 0);
    assert_eq!(state.obstacle, obstacle);
}

#[test]
fn restart_keeps_score_and_obstacle() {
    let mut state = State {
        player: Player { x: 300, y: 60, velocity: 10 },
        frame_time: 40_000,
        obstacle: Obstacle::with_gap(340, 12, 3),
        mode: GameMode::End,
        score: 3,
    };
    state.restart();
    assert_eq!(
        state,
        State {
            player: Player { x: 5, y: 25, velocity: 0 },
            frame_time: 0,
            obstacle: Obstacle { x: 340, gap_y: 12, size: 17 },
            mode: GameMode::Playing,
            score: 3,
        }
    );
}

#[test]
fn menu_reacts_to_p_and_q_only() {
    for mode in [GameMode::Menu, GameMode::End] {
        let mut before = State::with_gap(20);
        before.mode = mode;
        for key in [None, Some(Key::Space), Some(Key::Other)] {
            let mut state = before;
            let frame = state.tick(STEP, key);
            assert_eq!(state, before);
            assert!(!frame.quit);
        }
        let mut state = before;
        let frame = state.tick(STEP, Some(Key::Q));
        assert_eq!(state, before);
        assert!(frame.quit);

        let mut state = before;
        let frame = state.tick(STEP, Some(Key::P));
        assert_eq!(state.mode, GameMode::Playing);
        assert!(!frame.quit);
    }
}

#[test]
fn round_reacts_to_the_space_key_only() {
    let before = playing(Player { x: 20, y: 25, velocity: 4 }, Obstacle::with_gap(80, 25, 0), 0);
    for elapsed in [10_000, STEP] {
        let mut idle = before;
        let idle_frame = idle.tick_with_gap(elapsed, None, 15);
        for key in [Key::P, Key::Q, Key::Other] {
            let mut state = before;
            let frame = state.tick_with_gap(elapsed, Some(key), 15);
            assert_eq!(state, idle);
            assert_eq!(frame, idle_frame);
            assert!(!frame.quit);
        }
        let mut state = before;
        state.tick_with_gap(elapsed, Some(Key::Space), 15);
        assert_eq!(state.player.velocity, idle.player.velocity - 10);
        assert_eq!(state.mode, GameMode::Playing);
    }
}

#[test]
fn step_waits_for_more_than_the_frame_duration() {
    let mut state = playing(Player::new(5, 25), Obstacle::with_gap(80, 25, 0), 0);
    state.tick(30_000, None);
    assert_eq!((state.frame_time, state.player.x), (30_000, 5));
    state.tick(30_000, None);
    assert_eq!((state.frame_time, state.player.x), (60_000, 5));
    state.tick(15_000, None);
    assert_eq!((state.frame_time, state.player.x), (75_000, 5));
    state.tick(1, None);
    assert_eq!((state.frame_time, state.player.x), (0, 6));
    assert_eq!(state.player.velocity, 1);
    state.tick(u32::MAX, None);
    assert_eq!((state.frame_time, state.player.x), (0, 7));
}

#[test]
fn flaps_between_steps_stack() {
    let mut state = playing(Player::new(5, 25), Obstacle::with_gap(80, 25, 0), 0);
    state.tick(10_000, Some(Key::Space));
    state.tick(10_000, Some(Key::Space));
    assert_eq!(state.player, Player { x: 5, y: 25, velocity: -20 });
    state.tick(STEP, None);
    assert_eq!(state.player, Player { x: 6, y: 22, velocity: -19 });
}

#[test]
fn step_comes_before_the_flap() {
    let mut state = playing(Player { x: 5, y: 25, velocity: 9 }, Obstacle::with_gap(80, 25, 0), 0);
    state.tick(STEP, Some(Key::Space));
    assert_eq!(state.player, Player { x: 6, y: 27, velocity: 0 });
}

#[test]
fn passing_the_obstacle_in_the_gap_scores_one_point() {
    let mut state = playing(Player { x: 85, y: 20, velocity: 0 }, Obstacle::with_gap(85, 20, 10), 10);
    state.score = 10;
    state.tick_with_gap(STEP, None, 33);
    assert_eq!(state.score, 11);
    assert_eq!(state.player.x, 86);
    assert_eq!(state.obstacle, Obstacle { x: 86 + 80, gap_y: 33, size: 9 });
    assert_eq!(state.mode, GameMode::Playing);
    state.tick_with_gap(STEP, None, 12);
    assert_eq!(state.score, 11);
    assert_eq!(state.obstacle, Obstacle { x: 166, gap_y: 33, size: 9 });
}

#[test]
fn passing_the_obstacle_draws_the_next_gap_at_random() {
    let mut state = playing(Player { x: 85, y: 20, velocity: 0 }, Obstacle::with_gap(85, 20, 0), 0);
    state.tick(STEP, None);
    assert_eq!(state.score, 1);
    assert_eq!(state.obstacle.x, 166);
    assert_eq!(state.obstacle.size, 19);
    assert!(GAP_MIN <= state.obstacle.gap_y && state.obstacle.gap_y < GAP_MAX);
    assert!(state.is_wf());
}

#[test]
fn no_point_without_a_step() {
    let before = playing(Player { x: 85, y: 20, velocity: 0 }, Obstacle::with_gap(85, 20, 0), 0);
    let mut state = before;
    state.tick_with_gap(10_000, None, 33);
    assert_eq!(state.score, 0);
    assert_eq!(state.obstacle, before.obstacle);
    assert_eq!(state.frame_time, 10_000);
}

#[test]
fn collision_ends_the_round() {
    let mut state = playing(Player { x: 84, y: 14, velocity: 0 }, Obstacle::with_gap(85, 20, 10), 10);
    state.tick_with_gap(STEP, None, 33);
    assert_eq!(state.player, Player { x: 85, y: 14, velocity: 1 });
    assert_eq!(state.mode, GameMode::End);
    assert_eq!(state.score, 10);
    assert_eq!(state.obstacle, Obstacle { x: 85, gap_y: 20, size: 10 });
}

#[test]
fn entering_the_column_inside_the_gap_keeps_the_round_going() {
    let mut state = playing(Player { x: 84, y: 20, velocity: 0 }, Obstacle::with_gap(85, 20, 10), 10);
    state.tick_with_gap(STEP, None, 33);
    assert_eq!(state.player.x, 85);
    assert_eq!(state.mode, GameMode::Playing);
    assert_eq!(state.score, 10);
}

#[test]
fn falling_below_the_screen_ends_the_round() {
    let mut state = playing(Player { x: 10, y: 49, velocity: 10 }, Obstacle::with_gap(80, 25, 0), 0);
    state.tick(STEP, None);
    assert_eq!(state.player.y, 51);
    assert_eq!(state.mode, GameMode::End);
    let mut state = playing(Player { x: 10, y: 48, velocity: 10 }, Obstacle::with_gap(80, 25, 0), 0);
    state.tick(STEP, None);
    assert_eq!(state.player.y, 50);
    assert_eq!(state.mode, GameMode::Playing);
}

#[test]
fn menu_frame_is_the_welcome_screen() {
    let mut state = State::with_gap(20);
    let frame = state.main_menu(None);
    assert_eq!(
        frame,
        Frame {
            commands: vec![
                DrawCommand::Clear,
                centered(5, "Welcome to Flappy Dragon"),
                centered(8, "(P) Play Game"),
                centered(9, "(Q) Quit Game"),
            ],
            quit: false,
        }
    );
    assert_eq!(state.tick(0, Some(Key::Other)), frame);
}

#[test]
fn end_frame_is_the_dead_screen() {
    let mut state = State::with_gap(20);
    state.mode = GameMode::End;
    let frame = state.dead(Some(Key::Q));
    assert_eq!(
        frame,
        Frame {
            commands: vec![
                DrawCommand::Clear,
                centered(5, "You're dead!"),
                centered(8, "(P) Play Game"),
                centered(9, "(Q) Quit Game"),
            ],
            quit: true,
        }
    );
    assert_eq!(state.tick(0, Some(Key::Q)), frame);
}

#[test]
fn round_frame_paints_score_player_and_wall() {
    let mut state = playing(Player { x: 84, y: 20, velocity: 5 }, Obstacle::with_gap(85, 20, 10), 10);
    let frame = state.play_with_gap(STEP, None, 33);
    assert!(!frame.quit);
    let black = Rgb { r: 0, g: 0, b: 0 };
    let mut expected = vec![
        DrawCommand::ClearBackground { color: Rgb { r: 0, g: 0, b: 128 } },
        DrawCommand::Print { x: 0, y: 0, text: String::from("Press SPACE to flap.") },
        DrawCommand::Print { x: 0, y: 1, text: String::from("Score: 10") },
        DrawCommand::Put { x: 0, y: 21, fg: Rgb { r: 255, g: 255, b: 0 }, bg: black, glyph: 64 },
    ];
    for y in (0..15).chain(25..50) {
        expected.push(DrawCommand::Put {
            x: 0,
            y,
            fg: Rgb { r: 255, g: 0, b: 0 },
            bg: black,
            glyph: 124,
        });
    }
    assert_eq!(frame.commands, expected);
}

#[test]
fn round_frame_shows_the_score_and_wall_from_before_the_point() {
    let mut state = playing(Player { x: 85, y: 20, velocity: 0 }, Obstacle::with_gap(85, 20, 10), 10);
    let frame = state.play(STEP, None);
    assert_eq!(state.score, 11);
    assert_eq!(
        frame.commands[2],
        DrawCommand::Print { x: 0, y: 1, text: String::from("Score: 10") }
    );
    assert_eq!(frame.commands.len(), 4 + 15 + 25);
    match &frame.commands[4] {
        DrawCommand::Put { x, y, .. } => assert_eq!((*x, *y), (-1, 0)),
        other => panic!("unexpected command {:?}", other),
    }
}

#[test]
fn background_colour_is_that_of_the_toolkit() {
    let mut state = playing(Player::new(5, 25), Obstacle::with_gap(80, 25, 0), 0);
    let frame = state.tick(0, None);
    let (r, g, b) = bracket_lib::prelude::NAVY;
    assert_eq!(frame.commands[0], DrawCommand::ClearBackground { color: Rgb { r, g, b } });
}

#[test]
fn can_tick_refuses_what_would_overflow() {
    let far = playing(
        Player { x: i32::MAX, y: 20, velocity: 0 },
        Obstacle { x: i32::MAX, gap_y: 20, size: 20 },
        0,
    );
    assert!(far.is_wf());
    assert!(far.can_tick(10_000, None));
    assert!(!far.can_tick(STEP, None));

    let near_end = playing(
        Player { x: i32::MAX - 80, y: 20, velocity: 0 },
        Obstacle { x: i32::MAX - 80, gap_y: 20, size: 20 },
        0,
    );
    assert!(!near_end.can_tick(STEP, None));
    let room = playing(
        Player { x: i32::MAX - 81, y: 20, velocity: 0 },
        Obstacle { x: i32::MAX - 81, gap_y: 20, size: 20 },
        0,
    );
    assert!(room.can_tick(STEP, None));

    let top_score = playing(
        Player { x: 85, y: 20, velocity: 0 },
        Obstacle { x: 85, gap_y: 20, size: 2 },
        i32::MAX,
    );
    assert!(top_score.can_tick(10_000, None));
    assert!(!top_score.can_tick(STEP, None));

    let rising = playing(
        Player { x: 5, y: 20, velocity: i32::MIN + 9 },
        Obstacle::with_gap(80, 20, 0),
        0,
    );
    assert!(rising.can_tick(10_000, None));
    assert!(!rising.can_tick(10_000, Some(Key::Space)));
    assert!(rising.can_tick(STEP, Some(Key::Space)));

    let mut menu = far;
    menu.mode = GameMode::Menu;
    assert!(menu.can_tick(STEP, Some(Key::P)));
}

#[test]
fn can_tick_refuses_states_the_game_never_reaches() {
    let good = playing(Player::new(5, 25), Obstacle::with_gap(80, 25, 0), 0);
    assert!(good.is_wf());
    assert!(good.can_tick(STEP, Some(Key::Space)));

    let mut state = good;
    state.score = -1;
    assert!(!state.is_wf());
    assert!(!state.can_tick(STEP, None));

    let mut state = good;
    state.score = 1;
    assert!(!state.is_wf());

    let mut state = good;
    state.obstacle.gap_y = 40;
    assert!(!state.is_wf());

    let mut state = good;
    state.player.x = 81;
    assert!(!state.is_wf());

    let mut state = good;
    state.player.y = -1;
    assert!(!state.is_wf());

    let mut state = good;
    state.player.velocity = 11;
    assert!(!state.is_wf());

    let mut state = good;
    state.frame_time = FRAME_DURATION + 1;
    assert!(!state.is_wf());

    let mut state = good;
    state.player.y = 51;
    assert!(!state.is_wf());
    state.mode = GameMode::End;
    assert!(state.is_wf());
}

#[test]
fn every_frame_keeps_the_state_well_formed() {
    let mut state = State::with_gap(25);
    let keys = [None, Some(Key::Space), Some(Key::P), Some(Key::Other), None, None, Some(Key::Space)];
    let times = [STEP, 10_000, 40_000, STEP, 74_999, 2];
    for i in 0..5000 {
        let key = keys[(i * 7 + i / 3) % keys.len()];
        let elapsed = times[(i * 5 + i / 11) % times.len()];
        assert!(state.can_tick(elapsed, key));
        let gap = GAP_MIN + (i as i32 * 13) % (GAP_MAX - GAP_MIN);
        state.tick_with_gap(elapsed, key, gap);
        assert!(state.is_wf());
        assert!(state.score >= 0);
        assert!(state.obstacle.size >= 2);
        assert!(state.player.y >= 0);
        assert!(state.player.velocity <= 10);
    }
}
