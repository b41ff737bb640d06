//! What holds of the game for all inputs, proved over the models.
use vstd::prelude::*;
use crate::config::{
    FLAP_IMPULSE, GAP_MAX, GAP_MIN, MIN_GAP_SIZE, SCREEN_HEIGHT, SCREEN_WIDTH, START_X, START_Y,
    TERMINAL_VELOCITY,
};
use crate::draw::{black, red, wall_glyph, Draw};
use crate::obstacle::{gap_size, half, ObstacleModel};
use crate::player::{whole_rows, PlayerModel};
use crate::state::{GameMode, Key, StateModel};

verus! {

/// The gap is 20 rows high less one row per point, and never lower than
/// 2 rows.
pub proof fn law_gap_size(score: int)
    ensures
        gap_size(score) == vstd::math::max(2, 20 - score),
        gap_size(score) >= MIN_GAP_SIZE,
{
}

/// A higher score never makes for a higher gap.
pub proof fn law_gap_size_is_monotonic(lower: int, higher: int)
    requires
        lower <= higher,
    ensures
        gap_size(higher) <= gap_size(lower),
{
}

/// The gap of an obstacle is the rows from the center less half the size
/// up to, not including, the center plus half the size, the half rounded
/// toward zero.
pub proof fn law_gap_interval(obstacle: ObstacleModel, y: int)
    ensures
        obstacle.in_gap(y) <==> obstacle.gap_y - half(obstacle.size) <= y < obstacle.gap_y + half(
            obstacle.size,
        ),
        obstacle.size >= 0 ==> 2 * half(obstacle.size) <= obstacle.size < 2 * half(obstacle.size)
            + 2,
{
}

/// A player inside the gap does not collide, whatever its column.
pub proof fn law_gap_is_safe(obstacle: ObstacleModel, player: PlayerModel)
    requires
        obstacle.in_gap(player.y),
    ensures
        !obstacle.hits(player),
{
}

/// A player in the obstacle's column and outside the gap collides, unless
/// it is in the first row of the lower wall: that row does not count as a
/// collision although it lies outside the gap.
pub proof fn law_wall_hits(obstacle: ObstacleModel, player: PlayerModel)
    requires
        player.x == obstacle.x,
        !obstacle.in_gap(player.y),
        player.y != obstacle.gap_bottom(),
    ensures
        obstacle.hits(player),
{
}

/// A player in any other column than the obstacle's does not collide.
pub proof fn law_no_hit_off_column(obstacle: ObstacleModel, player: PlayerModel)
    requires
        player.x != obstacle.x,
    ensures
        !obstacle.hits(player),
{
}

/// Where the wall paints a given row that it covers.
pub open spec fn wall_index(obstacle: ObstacleModel, y: int) -> int {
    if y < obstacle.gap_top() {
        y
    } else {
        vstd::math::max(obstacle.gap_top(), 0) + y - obstacle.gap_bottom()
    }
}

/// The wall of a well-formed obstacle paints wall cells only, all in one
/// column, and paints exactly the rows of the screen that lie outside the
/// gap.
pub proof fn law_wall_leaves_gap_open(obstacle: ObstacleModel, player_x: int)
    requires
        obstacle.wf(),
    ensures
        forall|i: int|
            0 <= i < obstacle.wall(player_x).len() ==> {
                &&& #[trigger] obstacle.wall(player_x)[i] matches Draw::Put { x, y, fg, bg, glyph }
                &&& x == obstacle.x - player_x
                &&& 0 <= y < SCREEN_HEIGHT
                &&& !obstacle.in_gap(y)
                &&& fg == red()
                &&& bg == black()
                &&& glyph == wall_glyph()
            },
        forall|y: int|
            0 <= y < SCREEN_HEIGHT && !obstacle.in_gap(y) ==> {
                &&& 0 <= #[trigger] wall_index(obstacle, y) < obstacle.wall(player_x).len()
                &&& obstacle.wall(player_x)[wall_index(obstacle, y)] == (Draw::Put {
                    x: obstacle.x - player_x,
                    y,
                    fg: red(),
                    bg: black(),
                    glyph: wall_glyph(),
                })
            },
{
}

/// A player that starts at rest and falls for `n` steps without a flap has
/// the velocity `n`, capped at the terminal velocity: a fifth of a row per
/// step for each step, up to two rows per step.
pub proof fn law_free_fall_velocity(x: int, y: int, n: nat)
    ensures
        PlayerModel::at(x, y).steps(n).velocity == vstd::math::min(TERMINAL_VELOCITY as int, n as int),
        PlayerModel::at(x, y).steps(n).x == x + n,
    decreases n,
{
    if n > 0 {
        law_free_fall_velocity(x, y, (n - 1) as nat);
    }
}

/// Neither a step nor a flap takes a velocity above the terminal velocity.
pub proof fn law_velocity_is_capped(player: PlayerModel)
    requires
        player.velocity <= TERMINAL_VELOCITY,
    ensures
        player.step().velocity <= TERMINAL_VELOCITY,
        player.flap().velocity <= TERMINAL_VELOCITY,
{
}

/// A step never leaves the player above the top of the screen, and moves it
/// one column forward.
pub proof fn law_step_moves(player: PlayerModel)
    ensures
        player.step().y >= 0,
        player.step().x == player.x + 1,
        player.step().y == vstd::math::max(0, player.y + whole_rows(player.step().velocity)),
{
}

/// A flap takes exactly the impulse, two rows per step, off the velocity,
/// whatever the velocity was, and moves nothing.
pub proof fn law_flap(player: PlayerModel)
    ensures
        player.flap().velocity == player.velocity - FLAP_IMPULSE,
        player.flap().x == player.x,
        player.flap().y == player.y,
{
}

/// Two flaps in a row take twice the impulse off the velocity, and the next
/// step moves the player by the velocity that both have left.
pub proof fn law_flaps_stack(player: PlayerModel)
    ensures
        player.flap().flap().velocity == player.velocity - 2 * FLAP_IMPULSE,
        player.flap().flap().step() == (PlayerModel {
            velocity: player.velocity - 2 * FLAP_IMPULSE,
            ..player
        }).step(),
{
}

/// Two frames of a round with the space key pressed and no simulation step
/// due take twice the impulse off the velocity and leave the player where
/// it was.
pub proof fn law_flaps_between_steps(state: StateModel, first: int, second: int)
    requires
        !state.step_due(first),
        !state.simulate(first, Some(Key::Space)).step_due(second),
    ensures
        state.simulate(first, Some(Key::Space)).simulate(second, Some(Key::Space)).player
            == (PlayerModel { velocity: state.player.velocity - 2 * FLAP_IMPULSE, ..state.player }),
{
}

/// In a menu, before a round or after one, only `P` and `Q` have an effect:
/// `P` starts a round, `Q` asks to close the game, and with any other key
/// or none the state stays as it is.  The time that passed plays no part.
pub proof fn law_menu_keys(state: StateModel, elapsed: int, key: Option<Key>, next_gap: int)
    requires
        !(state.mode is Playing),
    ensures
        key == Some(Key::P) ==> state.tick(elapsed, key, next_gap) == state.restart(),
        key != Some(Key::P) ==> state.tick(elapsed, key, next_gap) == state,
        state.frame(elapsed, key).quit <==> key == Some(Key::Q),
        state.frame(elapsed, key).draws == state.frame(0, None).draws,
{
}

/// Starting a round puts the player at rest at the start position, empties
/// the clock, and keeps score and obstacle.
pub proof fn law_restart(state: StateModel)
    ensures
        state.restart().mode is Playing,
        state.restart().player == PlayerModel::at(START_X as int, START_Y as int),
        state.restart().frame_time == 0,
        state.restart().score == state.score,
        state.restart().obstacle == state.obstacle,
{
}

/// While a round is running no key but the space key has an effect, and no
/// key asks to close the game.
pub proof fn law_playing_keys(state: StateModel, elapsed: int, key: Option<Key>, next_gap: int)
    requires
        state.mode is Playing,
        key != Some(Key::Space),
    ensures
        state.tick(elapsed, key, next_gap) == state.tick(elapsed, None, next_gap),
        state.frame(elapsed, key) == state.frame(elapsed, None),
        !state.frame(elapsed, key).quit,
{
}

/// A round ends only by falling below the screen or by a collision, and a
/// frame of a round leads nowhere but on or to the end.
pub proof fn law_round_ends(state: StateModel, elapsed: int, key: Option<Key>, next_gap: int)
    requires
        state.mode is Playing,
    ensures
        state.tick(elapsed, key, next_gap).mode is End <==> state.simulate(elapsed, key).award(
            next_gap,
        ).lost(),
        !(state.tick(elapsed, key, next_gap).mode is Menu),
{
}

/// A frame in which the player passes the obstacle scores exactly one point
/// and puts the next obstacle one screen width ahead of the player; any
/// other frame keeps score and obstacle.
pub proof fn law_passing_scores(state: StateModel, elapsed: int, key: Option<Key>, next_gap: int)
    requires
        state.mode is Playing,
    ensures
        state.simulate(elapsed, key).passed() ==> {
            &&& state.tick(elapsed, key, next_gap).score == state.score + 1
            &&& state.tick(elapsed, key, next_gap).obstacle == ObstacleModel::with_gap(
                state.tick(elapsed, key, next_gap).player.x + SCREEN_WIDTH,
                next_gap,
                state.score + 1,
            )
        },
        !state.simulate(elapsed, key).passed() ==> {
            &&& state.tick(elapsed, key, next_gap).score == state.score
            &&& state.tick(elapsed, key, next_gap).obstacle == state.obstacle
        },
{
}

/// A new game is well formed: it shows the menu, has no score, and its
/// obstacle has the full gap.
pub proof fn law_initial_state(gap_y: int)
    requires
        GAP_MIN <= gap_y < GAP_MAX,
    ensures
        StateModel::initial(gap_y).wf(),
        StateModel::initial(gap_y).mode is Menu,
        StateModel::initial(gap_y).score == 0,
{
}

/// Every frame keeps the state well formed: the score is never negative,
/// the gap never lower than the smallest gap, the player never above the
/// top of the screen nor faster than the terminal velocity, and the obstacle
/// never behind the player.
pub proof fn law_tick_keeps_wf(state: StateModel, elapsed: int, key: Option<Key>, next_gap: int)
    requires
        state.wf(),
        elapsed >= 0,
        GAP_MIN <= next_gap < GAP_MAX,
    ensures
        state.tick(elapsed, key, next_gap).wf(),
{
}

} // verus!
