//! The player: a position in the world and a vertical velocity.
use vstd::prelude::*;
use crate::config::{FLAP_IMPULSE, GRAVITY, TERMINAL_VELOCITY, VELOCITY_UNITS_PER_ROW};
use crate::draw::{black, named_black, named_yellow, player_glyph, yellow, Draw, DrawCommand};
use bracket_lib::prelude::to_cp437;

verus! {

/// The mathematical model of a [`Player`]: unbounded integers.
pub struct PlayerModel {
    /// Column in world space.
    pub x: int,
    /// Row; zero is the top of the screen.
    pub y: int,
    /// Vertical speed in fifths of a row per step; positive is downward.
    pub velocity: int,
}

/// The whole rows that a velocity moves the player in one step: the velocity
/// in rows, rounded toward zero.
pub open spec fn whole_rows(velocity: int) -> int {
    if velocity >= 0 {
        velocity / (VELOCITY_UNITS_PER_ROW as int)
    } else {
        -((-velocity) / (VELOCITY_UNITS_PER_ROW as int))
    }
}

impl PlayerModel {
    /// A player at rest at the given position.
    pub open spec fn at(x: int, y: int) -> PlayerModel {
        PlayerModel { x, y, velocity: 0 }
    }

    /// The velocity after gravity has acted for one step.
    pub open spec fn pulled(self) -> int {
        if self.velocity < TERMINAL_VELOCITY {
            self.velocity + GRAVITY
        } else {
            self.velocity
        }
    }

    /// One simulation step: gravity, then the vertical move, one column
    /// forward, and the row kept at or below the top of the screen.
    pub open spec fn step(self) -> PlayerModel {
        let velocity = self.pulled();
        let y = self.y + whole_rows(velocity);
        PlayerModel { x: self.x + 1, y: if y < 0 { 0 } else { y }, velocity }
    }

    /// One flap: the impulse comes off the velocity, whatever it was.
    pub open spec fn flap(self) -> PlayerModel {
        PlayerModel { velocity: self.velocity - FLAP_IMPULSE, ..self }
    }

    /// How the player is painted: its glyph in the leftmost column of its
    /// row, since the view scrolls with the player.
    pub open spec fn sprite(self) -> Draw {
        Draw::Put { x: 0, y: self.y, fg: yellow(), bg: black(), glyph: player_glyph() }
    }

    /// The player after `n` steps without a flap.
    pub open spec fn steps(self, n: nat) -> PlayerModel
        decreases n,
    {
        if n == 0 {
            self
        } else {
            self.steps((n - 1) as nat).step()
        }
    }
}

/// The player as the game holds it.
#[derive(Clone, Copy, Debug, PartialEq, Eq)]
pub struct Player {
    /// Column in world space.
    pub x: i32,
    /// Row; zero is the top of the screen.
    pub y: i32,
    /// Vertical speed in fifths of a row per step; positive is downward.
    pub velocity: i32,
}

impl View for Player {
    type V = PlayerModel;

    open spec fn view(&self) -> PlayerModel {
        PlayerModel { x: self.x as int, y: self.y as int, velocity: self.velocity as int }
    }
}

impl Player {
    /// A player at rest at the given position.
    pub fn new(x: i32, y: i32) -> (player: Player)
        ensures
            player@ == PlayerModel::at(x as int, y as int),
    {
        Player { x, y, velocity: 0 }
    }

    /// Whether the next step stays within the machine's integers.
    pub open spec fn can_step(&self) -> bool {
        &&& self@.step().x <= i32::MAX
        &&& self@.step().y <= i32::MAX
    }

    /// Advances the player by one simulation step.
    pub fn gravity_and_move(&mut self)
        requires
            old(self).can_step(),
        ensures
            final(self)@ == old(self)@.step(),
    {
        if self.velocity < TERMINAL_VELOCITY {
            self.velocity = self.velocity + GRAVITY;
        }
        let rows: i64 = (self.velocity / VELOCITY_UNITS_PER_ROW) as i64;
        let y: i64 = self.y as i64 + rows;
        self.x = self.x + 1;
        if y < 0 {
            self.y = 0;
        } else {
            self.y = y as i32;
        }
    }

    /// The command that paints the player.
    pub fn render(&self) -> (command: DrawCommand)
        ensures
            command@ == self@.sprite(),
    {
        DrawCommand::Put {
            x: 0,
            y: self.y,
            fg: named_yellow(),
            bg: named_black(),
            glyph: to_cp437('@'),
        }
    }

    /// Whether a flap stays within the machine's integers.
    pub open spec fn can_flap(&self) -> bool {
        self@.flap().velocity >= i32::MIN
    }

    /// Applies one flap.
    pub fn flap(&mut self)
        requires
            old(self).can_flap(),
        ensures
            final(self)@ == old(self)@.flap(),
    {
        self.velocity = self.velocity - FLAP_IMPULSE;
    }
}

} // verus!
