//! The wall ahead of the player, and the gap in it.
use vstd::prelude::*;
use crate::config::{BASE_GAP_SIZE, GAP_MAX, GAP_MIN, MIN_GAP_SIZE, SCREEN_HEIGHT};
use crate::draw::{
    black, lemma_painted_push, named_black, named_red, painted, red, wall_glyph, Draw,
    DrawCommand, Rgb,
};
use crate::player::{Player, PlayerModel};
use bracket_lib::prelude::{to_cp437, RandomNumberGenerator};

verus! {

/// The height of the gap at a score: it shrinks by one row per point, down
/// to the smallest gap.
pub open spec fn gap_size(score: int) -> int {
    if BASE_GAP_SIZE - score > MIN_GAP_SIZE {
        BASE_GAP_SIZE - score
    } else {
        MIN_GAP_SIZE as int
    }
}

/// Half of a size, rounded toward zero.
pub open spec fn half(size: int) -> int {
    if size >= 0 {
        size / 2
    } else {
        -((-size) / 2)
    }
}

/// A run of wall cells in one screen column: the rows from `from` up to,
/// not including, `to`.
pub open spec fn column(x: int, from: int, to: int) -> Seq<Draw> {
    Seq::new(
        (if to > from { to - from } else { 0 }) as nat,
        |i: int| Draw::Put { x, y: from + i, fg: red(), bg: black(), glyph: wall_glyph() },
    )
}

/// The mathematical model of an [`Obstacle`]: unbounded integers.
pub struct ObstacleModel {
    /// Column in world space.
    pub x: int,
    /// Row of the center of the gap.
    pub gap_y: int,
    /// Height of the gap.
    pub size: int,
}

impl ObstacleModel {
    /// The obstacle in column `x` with its gap centered on `gap_y`, as high
    /// as the score allows.
    pub open spec fn with_gap(x: int, gap_y: int, score: int) -> ObstacleModel {
        ObstacleModel { x, gap_y, size: gap_size(score) }
    }

    /// Whether the gap center lies in the range that gaps are drawn from and
    /// the gap is no smaller than the smallest gap.
    pub open spec fn wf(self) -> bool {
        &&& GAP_MIN <= self.gap_y < GAP_MAX
        &&& self.size >= MIN_GAP_SIZE
    }

    /// First row of the gap, which is also the end of the upper wall.
    pub open spec fn gap_top(self) -> int {
        self.gap_y - half(self.size)
    }

    /// First row of the lower wall.
    pub open spec fn gap_bottom(self) -> int {
        self.gap_y + half(self.size)
    }

    /// Whether a row lies in the gap: the rows from `gap_top` up to, not
    /// including, `gap_bottom`.
    pub open spec fn in_gap(self, y: int) -> bool {
        self.gap_top() <= y < self.gap_bottom()
    }

    /// Whether the player collides: only in the obstacle's own column, and
    /// there above the gap's first row or below the lower wall's first row.
    pub open spec fn hits(self, player: PlayerModel) -> bool {
        &&& player.x == self.x
        &&& (player.y < self.gap_top() || player.y > self.gap_bottom())
    }

    /// How the obstacle is painted for a player in column `player_x`: the
    /// upper wall from the top of the screen to the gap, then the lower wall
    /// from the gap to the bottom of the screen, both in the column that
    /// lies as far right of the screen's edge as the obstacle lies ahead of
    /// the player.
    pub open spec fn wall(self, player_x: int) -> Seq<Draw> {
        column(self.x - player_x, 0, self.gap_top()) + column(
            self.x - player_x,
            self.gap_bottom(),
            SCREEN_HEIGHT as int,
        )
    }
}

/// Trusted: declares bracket-lib's `RandomNumberGenerator` as an opaque type.
#[verifier::external_type_specification]
#[verifier::external_body]
pub struct ExRandomNumberGenerator(bracket_lib::prelude::RandomNumberGenerator);

/// Trusted: `RandomNumberGenerator::new` makes a generator from a seed that
/// it takes from the operating system's random bytes or, failing those, from
/// the clock.  It takes no argument, and nothing is claimed of the generator.
pub assume_specification[ RandomNumberGenerator::new ]() -> (generator: RandomNumberGenerator)
;

/// Trusted: `RandomNumberGenerator::range` draws a value that is at least
/// `min` and less than `max`.  It panics on an empty range, which the
/// precondition leaves out.
#[verifier::external_body]
fn draw_in_range(generator: &mut RandomNumberGenerator, min: i32, max: i32) -> (value: i32)
    requires
        min < max,
    ensures
        min <= value < max,
{
    generator.range(min, max)
}

/// The wall ahead of the player as the game holds it.
#[derive(Clone, Copy, Debug, PartialEq, Eq)]
pub struct Obstacle {
    /// Column in world space.
    pub x: i32,
    /// Row of the center of the gap.
    pub gap_y: i32,
    /// Height of the gap.
    pub size: i32,
}

impl View for Obstacle {
    type V = ObstacleModel;

    open spec fn view(&self) -> ObstacleModel {
        ObstacleModel { x: self.x as int, gap_y: self.gap_y as int, size: self.size as int }
    }
}

impl Obstacle {
    /// An obstacle in column `x` for the given score, with its gap centered
    /// on a row drawn at random from `GAP_MIN` up to, not including,
    /// `GAP_MAX`.  Every call draws anew from a freshly seeded generator.
    pub fn new(x: i32, score: i32) -> (obstacle: Obstacle)
        requires
            gap_size(score as int) <= i32::MAX,
        ensures
            obstacle@ == ObstacleModel::with_gap(x as int, obstacle@.gap_y, score as int),
            GAP_MIN <= obstacle@.gap_y < GAP_MAX,
    {
        let mut random = RandomNumberGenerator::new();
        let gap_y: i32 = draw_in_range(&mut random, GAP_MIN, GAP_MAX);
        Obstacle::with_gap(x, gap_y, score)
    }

    /// An obstacle in column `x` for the given score, with its gap centered
    /// on the given row.
    pub fn with_gap(x: i32, gap_y: i32, score: i32) -> (obstacle: Obstacle)
        requires
            gap_size(score as int) <= i32::MAX,
        ensures
            obstacle@ == ObstacleModel::with_gap(x as int, gap_y as int, score as int),
    {
        let size: i32 = if score < BASE_GAP_SIZE - MIN_GAP_SIZE {
            BASE_GAP_SIZE - score
        } else {
            MIN_GAP_SIZE
        };
        Obstacle { x, gap_y, size }
    }

    /// Whether the obstacle can be painted for a player in column
    /// `player_x` with every cell inside the machine's integers.
    pub open spec fn can_render(&self, player_x: i32) -> bool {
        &&& i32::MIN <= self.x - player_x <= i32::MAX
        &&& self@.gap_top() <= i32::MAX + 1
        &&& self@.gap_bottom() >= i32::MIN
    }

    /// The commands that paint the obstacle for a player in column
    /// `player_x`.
    pub fn render(&self, player_x: i32) -> (commands: Vec<DrawCommand>)
        requires
            self.can_render(player_x),
        ensures
            painted(commands@) == self@.wall(player_x as int),
    {
        let screen_x: i32 = self.x - player_x;
        let half_size: i32 = self.size / 2;
        let top: i64 = self.gap_y as i64 - half_size as i64;
        let bottom: i64 = self.gap_y as i64 + half_size as i64;
        let fg: Rgb = named_red();
        let bg: Rgb = named_black();
        let glyph: u16 = to_cp437('|');
        let mut commands: Vec<DrawCommand> = Vec::new();
        assert(painted(commands@) =~= column(screen_x as int, 0, 0));
        let mut y: i64 = 0;
        while y < top
            invariant
                0 <= y,
                y <= top || y == 0,
                top <= i32::MAX + 1,
                fg == red(),
                bg == black(),
                glyph == wall_glyph(),
                painted(commands@) == column(screen_x as int, 0, y as int),
            decreases top - y,
        {
            let command = DrawCommand::Put { x: screen_x, y: y as i32, fg, bg, glyph };
            proof {
                lemma_painted_push(commands@, command);
                assert(column(screen_x as int, 0, y + 1) =~= column(screen_x as int, 0, y as int).push(
                    command@,
                ));
            }
            commands.push(command);
            y = y + 1;
        }
        assert(column(screen_x as int, 0, y as int) =~= column(screen_x as int, 0, top as int));
        assert(painted(commands@) =~= column(screen_x as int, 0, top as int) + column(
            screen_x as int,
            bottom as int,
            bottom as int,
        ));
        let mut y: i64 = bottom;
        while y < SCREEN_HEIGHT as i64
            invariant
                bottom <= y,
                i32::MIN <= bottom,
                y <= SCREEN_HEIGHT || y == bottom,
                fg == red(),
                bg == black(),
                glyph == wall_glyph(),
                painted(commands@) == column(screen_x as int, 0, top as int) + column(
                    screen_x as int,
                    bottom as int,
                    y as int,
                ),
            decreases SCREEN_HEIGHT - y,
        {
            let command = DrawCommand::Put { x: screen_x, y: y as i32, fg, bg, glyph };
            proof {
                lemma_painted_push(commands@, command);
                assert(column(screen_x as int, bottom as int, y + 1) =~= column(
                    screen_x as int,
                    bottom as int,
                    y as int,
                ).push(command@));
                assert((column(screen_x as int, 0, top as int) + column(
                    screen_x as int,
                    bottom as int,
                    y as int,
                )).push(command@) =~= column(screen_x as int, 0, top as int) + column(
                    screen_x as int,
                    bottom as int,
                    y as int,
                ).push(command@));
            }
            commands.push(command);
            y = y + 1;
        }
        assert(column(screen_x as int, bottom as int, y as int) =~= column(
            screen_x as int,
            bottom as int,
            SCREEN_HEIGHT as int,
        ));
        commands
    }

    /// Whether the player collides with the obstacle.
    pub fn hit_obstacle(&self, player: &Player) -> (hit: bool)
        ensures
            hit == self@.hits(player@),
    {
        let half_size: i64 = (self.size / 2) as i64;
        let does_x_match = player.x == self.x;
        let player_above_gap = (player.y as i64) < self.gap_y as i64 - half_size;
        let player_below_gap = (player.y as i64) > self.gap_y as i64 + half_size;
        does_x_match && (player_below_gap || player_above_gap)
    }
}

} // verus!
