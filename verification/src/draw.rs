//! What a frame paints: drawing operations, their colours, glyphs and texts.
use vstd::prelude::*;
use vstd::string::StringExecFns;

verus! {

/// A colour as red, green and blue.
#[derive(Clone, Copy, Debug, PartialEq, Eq)]
pub struct Rgb {
    pub r: u8,
    pub g: u8,
    pub b: u8,
}

/// The colour behind the playing field.
pub open spec fn navy() -> Rgb {
    Rgb { r: 0, g: 0, b: 128 }
}

/// The colour of the player.
pub open spec fn yellow() -> Rgb {
    Rgb { r: 255, g: 255, b: 0 }
}

/// The colour behind every glyph.
pub open spec fn black() -> Rgb {
    Rgb { r: 0, g: 0, b: 0 }
}

/// The colour of a wall.
pub open spec fn red() -> Rgb {
    Rgb { r: 255, g: 0, b: 0 }
}

/// Trusted: reads `bracket_lib::prelude::NAVY`, which bracket-color defines
/// as the triple (0, 0, 128).
#[verifier::external_body]
pub(crate) fn named_navy() -> (color: Rgb)
    ensures
        color == navy(),
{
    let (r, g, b) = bracket_lib::prelude::NAVY;
    Rgb { r, g, b }
}

/// Trusted: reads `bracket_lib::prelude::YELLOW`, which bracket-color defines
/// as the triple (255, 255, 0).
#[verifier::external_body]
pub(crate) fn named_yellow() -> (color: Rgb)
    ensures
        color == yellow(),
{
    let (r, g, b) = bracket_lib::prelude::YELLOW;
    Rgb { r, g, b }
}

/// Trusted: reads `bracket_lib::prelude::BLACK`, which bracket-color defines
/// as the triple (0, 0, 0).
#[verifier::external_body]
pub(crate) fn named_black() -> (color: Rgb)
    ensures
        color == black(),
{
    let (r, g, b) = bracket_lib::prelude::BLACK;
    Rgb { r, g, b }
}

/// Trusted: reads `bracket_lib::prelude::RED`, which bracket-color defines
/// as the triple (255, 0, 0).
#[verifier::external_body]
pub(crate) fn named_red() -> (color: Rgb)
    ensures
        color == red(),
{
    let (r, g, b) = bracket_lib::prelude::RED;
    Rgb { r, g, b }
}

/// The index that `bracket_lib::prelude::to_cp437` gives a character in the
/// code page 437 glyph sheet.  The table is bracket-terminal's; only the two
/// entries that the game draws are stated beside it.
pub uninterp spec fn cp437_glyph(c: char) -> u16;

/// Trusted: `to_cp437` is a fixed table from characters to glyph indices, so
/// its result is a function of the character alone.  The table maps `'@'` to
/// 64 and `'|'` to 124.
pub assume_specification[ bracket_lib::prelude::to_cp437 ](c: char) -> (glyph: u16)
    ensures
        glyph == cp437_glyph(c),
        c == '@' ==> glyph == 64,
        c == '|' ==> glyph == 124,
;

/// The glyph of the player: `'@'` in code page 437.
pub open spec fn player_glyph() -> u16 {
    64
}

/// The glyph of a wall cell: `'|'` in code page 437.
pub open spec fn wall_glyph() -> u16 {
    124
}

/// The character that stands for a decimal digit.
pub open spec fn digit_char(d: int) -> char {
    seq!['0', '1', '2', '3', '4', '5', '6', '7', '8', '9'][d]
}

/// The decimal digits of a natural number, most significant first.
pub open spec fn decimal_digits(n: nat) -> Seq<char>
    decreases n,
{
    if n < 10 {
        seq![digit_char(n as int)]
    } else {
        decimal_digits(n / 10).push(digit_char((n % 10) as int))
    }
}

/// An integer written in decimal, with a leading minus sign if negative.
pub open spec fn decimal(n: int) -> Seq<char> {
    if n < 0 {
        seq!['-'] + decimal_digits((-n) as nat)
    } else {
        decimal_digits(n as nat)
    }
}

/// Trusted: `format!` with `{}` writes an `i32` in decimal, a minus sign
/// first if it is negative, with no padding and no leading zeros.
#[verifier::external_body]
pub(crate) fn decimal_string(n: i32) -> (text: String)
    ensures
        text@ == decimal(n as int),
{
    format!("{}", n)
}

/// The line that shows the score.
pub open spec fn score_line(score: int) -> Seq<char> {
    "Score: "@ + decimal(score)
}

/// The text of the line that shows the score.
pub fn score_text(score: i32) -> (text: String)
    ensures
        text@ == score_line(score as int),
{
    let number = decimal_string(score);
    String::from_str("Score: ").concat(number.as_str())
}

/// The model of one drawing operation: integer coordinates and texts as
/// sequences of characters.
pub enum Draw {
    /// Clear the grid.
    Clear,
    /// Clear the grid to a background colour.
    ClearBackground { color: Rgb },
    /// Write a text starting at a cell.
    Print { x: int, y: int, text: Seq<char> },
    /// Write a text centered in a row.
    PrintCentered { y: int, text: Seq<char> },
    /// Put one glyph into one cell.
    Put { x: int, y: int, fg: Rgb, bg: Rgb, glyph: u16 },
}

/// One drawing operation, as handed to the front end.
#[derive(Debug, PartialEq, Eq)]
pub enum DrawCommand {
    /// Clear the grid.
    Clear,
    /// Clear the grid to a background colour.
    ClearBackground { color: Rgb },
    /// Write a text starting at a cell.
    Print { x: i32, y: i32, text: String },
    /// Write a text centered in a row.
    PrintCentered { y: i32, text: String },
    /// Put one glyph into one cell.
    Put { x: i32, y: i32, fg: Rgb, bg: Rgb, glyph: u16 },
}

impl View for DrawCommand {
    type V = Draw;

    open spec fn view(&self) -> Draw {
        match *self {
            DrawCommand::Clear => Draw::Clear,
            DrawCommand::ClearBackground { color } => Draw::ClearBackground { color },
            DrawCommand::Print { x, y, text } => Draw::Print { x: x as int, y: y as int, text: text@ },
            DrawCommand::PrintCentered { y, text } => Draw::PrintCentered { y: y as int, text: text@ },
            DrawCommand::Put { x, y, fg, bg, glyph } => Draw::Put {
                x: x as int,
                y: y as int,
                fg,
                bg,
                glyph,
            },
        }
    }
}

impl Clone for DrawCommand {
    fn clone(&self) -> (copy: DrawCommand)
        ensures
            copy == *self,
    {
        match self {
            DrawCommand::Clear => DrawCommand::Clear,
            DrawCommand::ClearBackground { color } => DrawCommand::ClearBackground { color: *color },
            DrawCommand::Print { x, y, text } => DrawCommand::Print {
                x: *x,
                y: *y,
                text: text.clone(),
            },
            DrawCommand::PrintCentered { y, text } => DrawCommand::PrintCentered {
                y: *y,
                text: text.clone(),
            },
            DrawCommand::Put { x, y, fg, bg, glyph } => DrawCommand::Put {
                x: *x,
                y: *y,
                fg: *fg,
                bg: *bg,
                glyph: *glyph,
            },
        }
    }
}

/// What a list of commands paints, in order.
pub open spec fn painted(commands: Seq<DrawCommand>) -> Seq<Draw> {
    commands.map_values(|c: DrawCommand| c@)
}

/// The model of a [`Frame`].
pub struct FrameModel {
    /// The drawing operations, in the order in which they are performed.
    pub draws: Seq<Draw>,
    /// Whether the game asks to be closed.
    pub quit: bool,
}

/// What one tick hands to the front end.
#[derive(Debug, PartialEq, Eq)]
pub struct Frame {
    /// The drawing operations, in the order in which to perform them.
    pub commands: Vec<DrawCommand>,
    /// Whether the game asks to be closed.
    pub quit: bool,
}

impl View for Frame {
    type V = FrameModel;

    open spec fn view(&self) -> FrameModel {
        FrameModel { draws: painted(self.commands@), quit: self.quit }
    }
}

impl Clone for Frame {
    fn clone(&self) -> (copy: Frame)
        ensures
            copy@ == self@,
    {
        let mut commands: Vec<DrawCommand> = Vec::new();
        let mut i: usize = 0;
        while i < self.commands.len()
            invariant
                i <= self.commands.len(),
                commands@ == self.commands@.take(i as int),
            decreases self.commands.len() - i,
        {
            commands.push(self.commands[i].clone());
            assert(self.commands@.take(i + 1) =~= self.commands@.take(i as int).push(
                self.commands@[i as int],
            ));
            i = i + 1;
        }
        assert(self.commands@.take(i as int) =~= self.commands@);
        Frame { commands, quit: self.quit }
    }
}

/// Appending a command appends what it paints.
pub proof fn lemma_painted_push(commands: Seq<DrawCommand>, command: DrawCommand)
    ensures
        painted(commands.push(command)) == painted(commands).push(command@),
{
    assert(painted(commands.push(command)) =~= painted(commands).push(command@));
}

/// Joining two lists of commands joins what they paint.
pub proof fn lemma_painted_add(first: Seq<DrawCommand>, second: Seq<DrawCommand>)
    ensures
        painted(first + second) == painted(first) + painted(second),
{
    assert(painted(first + second) =~= painted(first) + painted(second));
}

/// The command that writes `text` from the cell at `(x, y)` on.
pub fn print(x: i32, y: i32, text: &str) -> (command: DrawCommand)
    ensures
        command@ == (Draw::Print { x: x as int, y: y as int, text: text@ }),
{
    DrawCommand::Print { x, y, text: text.to_owned() }
}

/// The command that writes `text` centered in row `y`.
pub fn print_centered(y: i32, text: &str) -> (command: DrawCommand)
    ensures
        command@ == (Draw::PrintCentered { y: y as int, text: text@ }),
{
    DrawCommand::PrintCentered { y, text: text.to_owned() }
}

} // verus!
