//! The game as a whole: its mode, the player, the wall ahead, the score and
//! the clock that paces the simulation.
use vstd::prelude::*;
use crate::config::{
    BASE_GAP_SIZE, FLAP_IMPULSE, FRAME_DURATION, GAP_MAX, GAP_MIN, GRAVITY, MIN_GAP_SIZE,
    SCREEN_HEIGHT, SCREEN_WIDTH, START_X, START_Y, TERMINAL_VELOCITY,
};
use crate::draw::{
    lemma_painted_add, named_navy, navy, painted, print, print_centered, score_line, score_text,
    Draw, DrawCommand, Frame, FrameModel,
};
use crate::obstacle::{gap_size, Obstacle, ObstacleModel};
use crate::player::{Player, PlayerModel};

verus! {

/// The phase the game is in.
#[derive(Clone, Copy, Debug, PartialEq, Eq, Structural)]
pub enum GameMode {
    /// The opening menu.
    Menu,
    /// A round is running.
    Playing,
    /// The round is lost.
    End,
}

/// A key press, as far as the game tells keys apart.
#[derive(Clone, Copy, Debug, PartialEq, Eq, Structural)]
pub enum Key {
    /// Starts a round from a menu.
    P,
    /// Asks to close the game from a menu.
    Q,
    /// Flaps while a round is running.
    Space,
    /// Any other key.
    Other,
}

/// What the opening menu paints.
pub open spec fn menu_scene() -> Seq<Draw> {
    seq![
        Draw::Clear,
        Draw::PrintCentered { y: 5, text: "Welcome to Flappy Dragon"@ },
        Draw::PrintCentered { y: 8, text: "(P) Play Game"@ },
        Draw::PrintCentered { y: 9, text: "(Q) Quit Game"@ },
    ]
}

/// What the menu after a lost round paints.
pub open spec fn dead_scene() -> Seq<Draw> {
    seq![
        Draw::Clear,
        Draw::PrintCentered { y: 5, text: "You're dead!"@ },
        Draw::PrintCentered { y: 8, text: "(P) Play Game"@ },
        Draw::PrintCentered { y: 9, text: "(Q) Quit Game"@ },
    ]
}

/// The mathematical model of a [`State`]: unbounded integers.
pub struct StateModel {
    pub player: PlayerModel,
    /// Microseconds gathered since the last simulation step.
    pub frame_time: int,
    pub obstacle: ObstacleModel,
    pub mode: GameMode,
    /// Obstacles passed since the game was created.
    pub score: int,
}

impl StateModel {
    /// A new game: the menu, a player at rest at the start position, the
    /// first obstacle one screen width from the origin, no score.
    pub open spec fn initial(gap_y: int) -> StateModel {
        StateModel {
            player: PlayerModel::at(START_X as int, START_Y as int),
            frame_time: 0,
            obstacle: ObstacleModel::with_gap(SCREEN_WIDTH as int, gap_y, 0),
            mode: GameMode::Menu,
            score: 0,
        }
    }

    /// What holds of every state that the game reaches.
    pub open spec fn wf(self) -> bool {
        &&& self.score >= 0
        &&& 0 <= self.frame_time <= FRAME_DURATION
        &&& self.obstacle.wf()
        &&& self.obstacle.size == gap_size(self.score)
        &&& START_X <= self.player.x <= self.obstacle.x
        &&& self.player.y >= 0
        &&& self.player.velocity <= TERMINAL_VELOCITY
        &&& (self.mode is Playing ==> self.player.y <= SCREEN_HEIGHT)
    }

    /// A round starts: the player is back at rest at the start position and
    /// the clock at zero.  Score and obstacle stay as they are.
    pub open spec fn restart(self) -> StateModel {
        StateModel {
            player: PlayerModel::at(START_X as int, START_Y as int),
            frame_time: 0,
            mode: GameMode::Playing,
            ..self
        }
    }

    /// A menu's answer to a key: `P` starts a round, nothing else changes
    /// the state.
    pub open spec fn answer(self, key: Option<Key>) -> StateModel {
        if key == Some(Key::P) {
            self.restart()
        } else {
            self
        }
    }

    /// Whether the time gathered so far and the time just elapsed call for
    /// a simulation step.
    pub open spec fn step_due(self, elapsed: int) -> bool {
        self.frame_time + elapsed > FRAME_DURATION
    }

    /// The clock and the player after one frame of a round: a simulation
    /// step if one is due, which also empties the clock, then a flap if the
    /// space key was pressed.
    pub open spec fn simulate(self, elapsed: int, key: Option<Key>) -> StateModel {
        let timed = if self.step_due(elapsed) {
            StateModel { frame_time: 0, player: self.player.step(), ..self }
        } else {
            StateModel { frame_time: self.frame_time + elapsed, ..self }
        };
        if key == Some(Key::Space) {
            StateModel { player: timed.player.flap(), ..timed }
        } else {
            timed
        }
    }

    /// Whether the player has left the obstacle behind.
    pub open spec fn passed(self) -> bool {
        self.player.x > self.obstacle.x
    }

    /// Passing an obstacle scores one point and puts the next obstacle one
    /// screen width ahead of the player, its gap centered on `next_gap` and
    /// sized by the new score.
    pub open spec fn award(self, next_gap: int) -> StateModel {
        if self.passed() {
            StateModel {
                score: self.score + 1,
                obstacle: ObstacleModel::with_gap(
                    self.player.x + SCREEN_WIDTH,
                    next_gap,
                    self.score + 1,
                ),
                ..self
            }
        } else {
            self
        }
    }

    /// Whether the round is lost: the player is below the screen or has hit
    /// the obstacle.
    pub open spec fn lost(self) -> bool {
        self.player.y > SCREEN_HEIGHT || self.obstacle.hits(self.player)
    }

    /// A lost round ends.
    pub open spec fn judge(self) -> StateModel {
        if self.lost() {
            StateModel { mode: GameMode::End, ..self }
        } else {
            self
        }
    }

    /// One frame of a round; `next_gap` is the gap center of the obstacle
    /// that is made if the player passes the present one.
    pub open spec fn play(self, elapsed: int, key: Option<Key>, next_gap: int) -> StateModel {
        self.simulate(elapsed, key).award(next_gap).judge()
    }

    /// What one frame of a round paints: the background, the hint, the score
    /// as it was before the frame, the player where the frame moved it, and
    /// the obstacle as it was before the frame, seen from the player's new
    /// column.
    pub open spec fn play_scene(self, elapsed: int, key: Option<Key>) -> Seq<Draw> {
        let moved = self.simulate(elapsed, key);
        seq![
            Draw::ClearBackground { color: navy() },
            Draw::Print { x: 0, y: 0, text: "Press SPACE to flap."@ },
            Draw::Print { x: 0, y: 1, text: score_line(self.score) },
            moved.player.sprite(),
        ] + self.obstacle.wall(moved.player.x)
    }

    /// Whether one frame of a round stays within the machine's integers.
    pub open spec fn can_play(self, elapsed: int, key: Option<Key>) -> bool {
        let moved = self.simulate(elapsed, key);
        &&& moved.player.x <= i32::MAX
        &&& moved.player.velocity >= i32::MIN
        &&& (moved.passed() ==> moved.score + 1 <= i32::MAX && moved.player.x + SCREEN_WIDTH
            <= i32::MAX)
    }

    /// The state after one frame, whatever the mode.
    pub open spec fn tick(self, elapsed: int, key: Option<Key>, next_gap: int) -> StateModel {
        match self.mode {
            GameMode::Menu => self.answer(key),
            GameMode::End => self.answer(key),
            GameMode::Playing => self.play(elapsed, key, next_gap),
        }
    }

    /// What one frame paints, whatever the mode.
    pub open spec fn scene(self, elapsed: int, key: Option<Key>) -> Seq<Draw> {
        match self.mode {
            GameMode::Menu => menu_scene(),
            GameMode::End => dead_scene(),
            GameMode::Playing => self.play_scene(elapsed, key),
        }
    }

    /// Whether one frame asks to close the game: `Q` in a menu.
    pub open spec fn quits(self, key: Option<Key>) -> bool {
        !(self.mode is Playing) && key == Some(Key::Q)
    }

    /// What one frame hands to the front end.
    pub open spec fn frame(self, elapsed: int, key: Option<Key>) -> FrameModel {
        FrameModel { draws: self.scene(elapsed, key), quit: self.quits(key) }
    }

    /// Whether one frame stays within the machine's integers.
    pub open spec fn can_tick(self, elapsed: int, key: Option<Key>) -> bool {
        self.mode is Playing ==> self.can_play(elapsed, key)
    }
}

/// The game as the front end holds it.
#[derive(Clone, Copy, Debug, PartialEq, Eq)]
pub struct State {
    pub player: Player,
    /// Microseconds gathered since the last simulation step.
    pub frame_time: u32,
    pub obstacle: Obstacle,
    pub mode: GameMode,
    /// Obstacles passed since the game was created.
    pub score: i32,
}

impl View for State {
    type V = StateModel;

    open spec fn view(&self) -> StateModel {
        StateModel {
            player: self.player@,
            frame_time: self.frame_time as int,
            obstacle: self.obstacle@,
            mode: self.mode,
            score: self.score as int,
        }
    }
}

impl State {
    /// What holds of every state that the game reaches.
    pub open spec fn wf(&self) -> bool {
        self@.wf()
    }

    /// Whether the state is one that the game reaches.
    pub fn is_wf(&self) -> (ok: bool)
        ensures
            ok == self.wf(),
    {
        let size: i64 = if self.score < BASE_GAP_SIZE - MIN_GAP_SIZE {
            BASE_GAP_SIZE as i64 - self.score as i64
        } else {
            MIN_GAP_SIZE as i64
        };
        let on_screen = match self.mode {
            GameMode::Playing => self.player.y <= SCREEN_HEIGHT,
            _ => true,
        };
        self.score >= 0 && self.frame_time <= FRAME_DURATION && GAP_MIN <= self.obstacle.gap_y
            && self.obstacle.gap_y < GAP_MAX && self.obstacle.size >= MIN_GAP_SIZE
            && self.obstacle.size as i64 == size && START_X <= self.player.x && self.player.x
            <= self.obstacle.x && self.player.y >= 0 && self.player.velocity <= TERMINAL_VELOCITY
            && on_screen
    }

    /// Whether [`State::tick`] may be called: the state is one that the game
    /// reaches, and the frame stays within the machine's integers.
    pub fn can_tick(&self, elapsed: u32, key: Option<Key>) -> (ok: bool)
        ensures
            ok == (self.wf() && self@.can_tick(elapsed as int, key)),
    {
        if !self.is_wf() {
            return false;
        }
        match self.mode {
            GameMode::Playing => {
                let due = self.frame_time as u64 + elapsed as u64 > FRAME_DURATION as u64;
                let x: i64 = if due {
                    self.player.x as i64 + 1
                } else {
                    self.player.x as i64
                };
                let pulled: i64 = if due && self.player.velocity < TERMINAL_VELOCITY {
                    self.player.velocity as i64 + GRAVITY as i64
                } else {
                    self.player.velocity as i64
                };
                let velocity: i64 = match key {
                    Some(Key::Space) => pulled - FLAP_IMPULSE as i64,
                    _ => pulled,
                };
                let passed = x > self.obstacle.x as i64;
                x <= i32::MAX as i64 && velocity >= i32::MIN as i64 && (!passed || (self.score
                    < i32::MAX && x + SCREEN_WIDTH as i64 <= i32::MAX as i64))
            },
            _ => true,
        }
    }

    /// A new game whose first obstacle has its gap centered on a row drawn
    /// at random.
    pub fn new() -> (state: State)
        ensures
            state@ == StateModel::initial(state@.obstacle.gap_y),
            GAP_MIN <= state@.obstacle.gap_y < GAP_MAX,
            state.wf(),
    {
        State {
            player: Player::new(START_X, START_Y),
            frame_time: 0,
            mode: GameMode::Menu,
            obstacle: Obstacle::new(SCREEN_WIDTH, 0),
            score: 0,
        }
    }

    /// A new game whose first obstacle has its gap centered on the given
    /// row.
    pub fn with_gap(gap_y: i32) -> (state: State)
        requires
            GAP_MIN <= gap_y < GAP_MAX,
        ensures
            state@ == StateModel::initial(gap_y as int),
            state.wf(),
    {
        State {
            player: Player::new(START_X, START_Y),
            frame_time: 0,
            mode: GameMode::Menu,
            obstacle: Obstacle::with_gap(SCREEN_WIDTH, gap_y, 0),
            score: 0,
        }
    }

    /// Starts a round.
    pub fn restart(&mut self)
        ensures
            final(self)@ == old(self)@.restart(),
            old(self).wf() ==> final(self).wf(),
    {
        self.player = Player::new(START_X, START_Y);
        self.frame_time = 0;
        self.mode = GameMode::Playing;
    }

    /// One frame of the opening menu.
    pub fn main_menu(&mut self, key: Option<Key>) -> (frame: Frame)
        ensures
            final(self)@ == old(self)@.answer(key),
            frame@ == (FrameModel { draws: menu_scene(), quit: key == Some(Key::Q) }),
            old(self).wf() ==> final(self).wf(),
    {
        let mut commands: Vec<DrawCommand> = Vec::new();
        commands.push(DrawCommand::Clear);
        commands.push(print_centered(5, "Welcome to Flappy Dragon"));
        commands.push(print_centered(8, "(P) Play Game"));
        commands.push(print_centered(9, "(Q) Quit Game"));
        assert(painted(commands@) =~= menu_scene());
        let mut quit = false;
        match key {
            Some(Key::P) => self.restart(),
            Some(Key::Q) => quit = true,
            _ => {},
        }
        Frame { commands, quit }
    }

    /// One frame of the menu after a lost round.
    pub fn dead(&mut self, key: Option<Key>) -> (frame: Frame)
        ensures
            final(self)@ == old(self)@.answer(key),
            frame@ == (FrameModel { draws: dead_scene(), quit: key == Some(Key::Q) }),
            old(self).wf() ==> final(self).wf(),
    {
        let mut commands: Vec<DrawCommand> = Vec::new();
        commands.push(DrawCommand::Clear);
        commands.push(print_centered(5, "You're dead!"));
        commands.push(print_centered(8, "(P) Play Game"));
        commands.push(print_centered(9, "(Q) Quit Game"));
        assert(painted(commands@) =~= dead_scene());
        let mut quit = false;
        match key {
            Some(Key::P) => self.restart(),
            Some(Key::Q) => quit = true,
            _ => {},
        }
        Frame { commands, quit }
    }

    /// The first part of a frame of a round: paints the background, the hint
    /// and the score, runs the clock and the player, and paints the player
    /// and the obstacle.
    fn advance(&mut self, elapsed: u32, key: Option<Key>) -> (commands: Vec<DrawCommand>)
        requires
            old(self).wf(),
            old(self)@.mode is Playing,
            old(self)@.can_play(elapsed as int, key),
        ensures
            final(self)@ == old(self)@.simulate(elapsed as int, key),
            painted(commands@) == old(self)@.play_scene(elapsed as int, key),
    {
        let mut commands: Vec<DrawCommand> = Vec::new();
        commands.push(DrawCommand::ClearBackground { color: named_navy() });
        commands.push(print(0, 0, "Press SPACE to flap."));
        commands.push(DrawCommand::Print { x: 0, y: 1, text: score_text(self.score) });
        if self.frame_time as u64 + elapsed as u64 > FRAME_DURATION as u64 {
            self.frame_time = 0;
            self.player.gravity_and_move();
        } else {
            self.frame_time = self.frame_time + elapsed;
        }
        if let Some(Key::Space) = key {
            self.player.flap();
        }
        commands.push(self.player.render());
        let mut wall = self.obstacle.render(self.player.x);
        proof {
            lemma_painted_add(commands@, wall@);
            assert(painted(commands@) =~= seq![
                Draw::ClearBackground { color: navy() },
                Draw::Print { x: 0, y: 0, text: "Press SPACE to flap."@ },
                Draw::Print { x: 0, y: 1, text: score_line(old(self)@.score) },
                self@.player.sprite(),
            ]);
        }
        commands.append(&mut wall);
        commands
    }

    /// The last part of a frame of a round: ends the round if it is lost.
    fn judge(&mut self)
        ensures
            final(self)@ == old(self)@.judge(),
    {
        if self.player.y > SCREEN_HEIGHT || self.obstacle.hit_obstacle(&self.player) {
            self.mode = GameMode::End;
        }
    }

    /// One frame of a round.  If the player passes the obstacle, the next
    /// one has its gap centered on a row drawn at random.
    pub fn play(&mut self, elapsed: u32, key: Option<Key>) -> (frame: Frame)
        requires
            old(self).wf(),
            old(self)@.mode is Playing,
            old(self)@.can_play(elapsed as int, key),
        ensures
            final(self)@ == old(self)@.play(elapsed as int, key, final(self)@.obstacle.gap_y),
            frame@ == old(self)@.frame(elapsed as int, key),
            final(self).wf(),
    {
        let commands = self.advance(elapsed, key);
        if self.player.x > self.obstacle.x {
            self.score = self.score + 1;
            self.obstacle = Obstacle::new(self.player.x + SCREEN_WIDTH, self.score);
        }
        self.judge();
        Frame { commands, quit: false }
    }

    /// One frame of a round.  If the player passes the obstacle, the next
    /// one has its gap centered on `next_gap`.
    pub fn play_with_gap(&mut self, elapsed: u32, key: Option<Key>, next_gap: i32) -> (frame: Frame)
        requires
            old(self).wf(),
            old(self)@.mode is Playing,
            old(self)@.can_play(elapsed as int, key),
            GAP_MIN <= next_gap < GAP_MAX,
        ensures
            final(self)@ == old(self)@.play(elapsed as int, key, next_gap as int),
            frame@ == old(self)@.frame(elapsed as int, key),
            final(self).wf(),
    {
        let commands = self.advance(elapsed, key);
        if self.player.x > self.obstacle.x {
            self.score = self.score + 1;
            self.obstacle = Obstacle::with_gap(self.player.x + SCREEN_WIDTH, next_gap, self.score);
        }
        self.judge();
        Frame { commands, quit: false }
    }

    /// One frame: runs the handler of the present mode.  Obstacles made on
    /// the way have their gaps centered on rows drawn at random.
    pub fn tick(&mut self, elapsed: u32, key: Option<Key>) -> (frame: Frame)
        requires
            old(self).wf(),
            old(self)@.can_tick(elapsed as int, key),
        ensures
            final(self)@ == old(self)@.tick(elapsed as int, key, final(self)@.obstacle.gap_y),
            frame@ == old(self)@.frame(elapsed as int, key),
            final(self).wf(),
    {
        match self.mode {
            GameMode::Menu => self.main_menu(key),
            GameMode::End => self.dead(key),
            GameMode::Playing => self.play(elapsed, key),
        }
    }

    /// One frame: runs the handler of the present mode.  An obstacle made
    /// on the way has its gap centered on `next_gap`.
    pub fn tick_with_gap(&mut self, elapsed: u32, key: Option<Key>, next_gap: i32) -> (frame: Frame)
        requires
            old(self).wf(),
            old(self)@.can_tick(elapsed as int, key),
            GAP_MIN <= next_gap < GAP_MAX,
        ensures
            final(self)@ == old(self)@.tick(elapsed as int, key, next_gap as int),
            frame@ == old(self)@.frame(elapsed as int, key),
            final(self).wf(),
    {
        match self.mode {
            GameMode::Menu => self.main_menu(key),
            GameMode::End => self.dead(key),
            GameMode::Playing => self.play_with_gap(elapsed, key, next_gap),
        }
    }
}

} // verus!
