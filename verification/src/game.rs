//! The state of the chess screen between frames and the decisions taken on
//! each input and at the end of each frame.
//!
//! The chess rules themselves belong to the chess engine that the program
//! drives: this module only sees what the engine reports (the phase of the
//! turn, the player to move, the legal moves of a picked piece, whether a
//! promotion was accepted) and says what to ask of it next.
use vstd::prelude::*;

use crate::board::{
    clear_highlights, is_board_layout, lemma_clearing_idempotent, lemma_same_shades_keep_layout, is_cleared, is_pick_highlight, mark_pick,
    new_board, same_shades, square_index, targets_on_board, Tile,
};

verus! {

/// The pieces of chess, as the engine names them.
#[derive(Debug, Clone, Copy, PartialEq, Eq, Structural)]
pub enum Piece {
    Pawn,
    Rook,
    Knight,
    Bishop,
    Queen,
    King,
}

/// The two sides.
#[derive(Debug, Clone, Copy, PartialEq, Eq, Structural)]
pub enum Player {
    White,
    Black,
}

/// What the engine waits for.
#[derive(Debug, Clone, Copy, PartialEq, Eq, Structural)]
pub enum Phase {
    /// The player to move picks one of their pieces.
    SelectPiece,
    /// The player to move picks a square for the picked piece.
    SelectMove,
    /// A pawn reached the last rank and waits for the piece it becomes.
    SelectPromotion,
    /// The player to move is checkmated.
    CheckMate,
    /// Any other state of the engine.
    Other,
}

/// A key of the keyboard, as far as the screen cares.
#[derive(Debug, Clone, Copy, PartialEq, Eq, Structural)]
pub enum Key {
    Escape,
    R,
    Num1,
    Num2,
    Num3,
    Num4,
    Other,
}

/// One input event of the window.
#[derive(Debug, Clone, Copy, PartialEq, Eq, Structural)]
pub enum Input {
    /// A key went down.
    KeyPress(Key),
    /// The left mouse button went down.
    LeftClick,
    /// Anything else.
    Other,
}

/// What the program does after an input.
#[derive(Debug, Clone, Copy, PartialEq, Eq, Structural)]
pub enum Command {
    Nothing,
    /// Close the window.
    Close,
    /// Find the square under the cursor and pick it.
    Pick,
    /// Start a new game in the engine.
    ResetChess,
}

/// What the program asks the engine after a pick.
#[derive(Debug, Clone, Copy, PartialEq, Eq, Structural)]
pub enum PickCommand {
    Nothing,
    /// Select the piece on square (`x`, `y`).
    SelectPiece { x: u8, y: u8 },
    /// Move the selected piece to square (`x`, `y`).
    SelectMove { x: u8, y: u8 },
}

/// A line of text that the screen shows.
#[derive(Debug, Clone, Copy, PartialEq, Eq, Structural)]
pub enum Caption {
    WhiteWins,
    BlackWins,
    PressRestart,
    WhitePlaying,
    BlackPlaying,
    SelectPromotion,
    RookOption,
    KnightOption,
    BishopOption,
    QueenOption,
}

/// The state of the screen between frames.
pub struct Game {
    /// The squares, bottom rank first.
    pub board: Vec<Tile>,
    /// The game ended in checkmate and waits for a restart.
    pub game_end: bool,
    /// A pawn waits for its promotion.
    pub promoting: bool,
    /// The piece chosen for the waiting promotion (`Pawn` while none is).
    pub selected_prom: Piece,
}

/// The state of the screen as a mathematical value.
pub struct GameView {
    pub tiles: Seq<Tile>,
    pub game_end: bool,
    pub promoting: bool,
    pub selected_prom: Piece,
}

impl View for Game {
    type V = GameView;

    open spec fn view(&self) -> GameView {
        GameView {
            tiles: self.board@,
            game_end: self.game_end,
            promoting: self.promoting,
            selected_prom: self.selected_prom,
        }
    }
}

/// The piece that a number key chooses for a promotion.
pub open spec fn key_promotion(key: Key) -> Option<Piece> {
    match key {
        Key::Num1 => Some(Piece::Rook),
        Key::Num2 => Some(Piece::Knight),
        Key::Num3 => Some(Piece::Bishop),
        Key::Num4 => Some(Piece::Queen),
        _ => None,
    }
}

/// What an input asks for: Escape closes the window; a click picks a square
/// unless the game is over or a promotion waits; R restarts an ended game.
pub open spec fn input_command(s: GameView, input: Input) -> Command {
    match input {
        Input::KeyPress(Key::Escape) => Command::Close,
        Input::LeftClick => if !s.game_end && !s.promoting {
            Command::Pick
        } else {
            Command::Nothing
        },
        Input::KeyPress(Key::R) => if s.game_end {
            Command::ResetChess
        } else {
            Command::Nothing
        },
        _ => Command::Nothing,
    }
}

/// The state after an input: R ends the end of game, and while a promotion
/// waits the number keys choose its piece.
pub open spec fn after_input(s: GameView, input: Input) -> GameView {
    let game_end = if input == Input::KeyPress(Key::R) {
        false
    } else {
        s.game_end
    };
    let selected_prom = match input {
        Input::KeyPress(key) => if s.promoting && key_promotion(key) is Some {
            key_promotion(key)->0
        } else {
            s.selected_prom
        },
        _ => s.selected_prom,
    };
    GameView { game_end, selected_prom, ..s }
}

/// The state at the end of a frame in which the engine is in `phase`.
pub open spec fn after_frame(s: GameView, phase: Phase) -> GameView {
    match phase {
        Phase::CheckMate => GameView { game_end: true, ..s },
        Phase::SelectPromotion => GameView { promoting: true, ..s },
        _ => s,
    }
}

/// The promotion handed to the engine at the end of a frame in `phase`.
pub open spec fn frame_promotion(s: GameView, phase: Phase) -> Option<Piece> {
    if phase == Phase::SelectPromotion {
        Some(s.selected_prom)
    } else {
        None
    }
}

/// The state after the engine answered a promotion.
pub open spec fn after_promotion_reply(s: GameView, accepted: bool) -> GameView {
    if accepted {
        GameView { promoting: false, selected_prom: Piece::Pawn, ..s }
    } else {
        s
    }
}

/// What a pick of column `x`, row `y` asks of the engine in `phase`.
pub open spec fn pick_command(phase: Phase, x: usize, y: usize) -> PickCommand {
    match phase {
        Phase::SelectPiece => PickCommand::SelectPiece { x: x as u8, y: y as u8 },
        Phase::SelectMove => PickCommand::SelectMove { x: x as u8, y: y as u8 },
        _ => PickCommand::Nothing,
    }
}

/// The lines that tell who plays, or who won and how to restart.
pub open spec fn status_of(game_end: bool, to_move: Player) -> Seq<Caption> {
    if game_end {
        seq![
            if to_move != Player::White {
                Caption::WhiteWins
            } else {
                Caption::BlackWins
            },
            Caption::PressRestart,
        ]
    } else {
        seq![
            if to_move == Player::White {
                Caption::WhitePlaying
            } else {
                Caption::BlackPlaying
            },
        ]
    }
}

/// The menu of promotions, shown while the engine waits for one.
pub open spec fn promotion_menu(phase: Phase) -> Seq<Caption> {
    if phase == Phase::SelectPromotion {
        seq![
            Caption::SelectPromotion,
            Caption::RookOption,
            Caption::KnightOption,
            Caption::BishopOption,
            Caption::QueenOption,
        ]
    } else {
        seq![]
    }
}

impl Game {
    /// The board keeps its checkerboard.
    pub open spec fn wf(&self) -> bool {
        is_board_layout(self.board@)
    }

    /// A fresh screen: a checkerboard without highlights, a running game,
    /// no promotion waiting.
    pub fn new() -> (game: Game)
        ensures
            game.wf(),
            is_cleared(game.board@),
            !game.game_end,
            !game.promoting,
            game.selected_prom == Piece::Pawn,
    {
        Game { board: new_board(), game_end: false, promoting: false, selected_prom: Piece::Pawn }
    }

    /// Takes one input of the window and says what to do about it.
    pub fn handle_input(&mut self, input: Input) -> (cmd: Command)
        requires
            old(self).wf(),
        ensures
            final(self).wf(),
            cmd == input_command(old(self)@, input),
            final(self)@ == after_input(old(self)@, input),
    {
        let cmd = match input {
            Input::KeyPress(Key::Escape) => Command::Close,
            Input::LeftClick => {
                if !self.game_end && !self.promoting {
                    Command::Pick
                } else {
                    Command::Nothing
                }
            },
            Input::KeyPress(Key::R) => {
                if self.game_end {
                    self.game_end = false;
                    Command::ResetChess
                } else {
                    Command::Nothing
                }
            },
            _ => Command::Nothing,
        };
        if self.promoting {
            match input {
                Input::KeyPress(Key::Num1) => {
                    self.selected_prom = Piece::Rook;
                },
                Input::KeyPress(Key::Num2) => {
                    self.selected_prom = Piece::Knight;
                },
                Input::KeyPress(Key::Num3) => {
                    self.selected_prom = Piece::Bishop;
                },
                Input::KeyPress(Key::Num4) => {
                    self.selected_prom = Piece::Queen;
                },
                _ => {},
            }
        }
        cmd
    }

    /// Starts a pick of the square in column `x` and `row` rows below the
    /// top of the board: removes the highlights of the last pick and says
    /// what to ask of the engine, which counts rows from the bottom.
    pub fn begin_pick(&mut self, phase: Phase, x: usize, row: usize) -> (cmd: PickCommand)
        requires
            old(self).wf(),
            row <= 7,
        ensures
            final(self).wf(),
            is_cleared(final(self).board@),
            same_shades(final(self).board@, old(self).board@),
            final(self).game_end == old(self).game_end,
            final(self).promoting == old(self).promoting,
            final(self).selected_prom == old(self).selected_prom,
            cmd == pick_command(phase, x, (7 - row) as usize),
    {
        let y = 7 - row;
        clear_highlights(&mut self.board);
        proof {
            lemma_same_shades_keep_layout(self.board@, old(self).board@);
        }
        match phase {
            Phase::SelectPiece => PickCommand::SelectPiece { x: x as u8, y: y as u8 },
            Phase::SelectMove => PickCommand::SelectMove { x: x as u8, y: y as u8 },
            _ => PickCommand::Nothing,
        }
    }

    /// Shows the piece picked on square (`x`, `y`) and its legal `moves`,
    /// right after `begin_pick` cleared the board.
    pub fn show_moves(&mut self, x: usize, y: usize, moves: &Vec<(u8, u8)>)
        requires
            old(self).wf(),
            is_cleared(old(self).board@),
            square_index(x as int, y as int) < 64,
            targets_on_board(moves@),
        ensures
            final(self).wf(),
            same_shades(final(self).board@, old(self).board@),
            is_pick_highlight(final(self).board@, square_index(x as int, y as int), moves@),
            final(self).game_end == old(self).game_end,
            final(self).promoting == old(self).promoting,
            final(self).selected_prom == old(self).selected_prom,
    {
        let sel = 8 * y + x;
        mark_pick(&mut self.board, sel, moves);
        proof {
            lemma_same_shades_keep_layout(self.board@, old(self).board@);
        }
    }

    /// Takes the phase in which the engine ended a frame: a checkmate ends
    /// the game, a waiting promotion opens the promotion menu. Returns the
    /// piece to hand to the engine for the promotion, if one waits.
    pub fn end_frame(&mut self, phase: Phase) -> (promotion: Option<Piece>)
        requires
            old(self).wf(),
        ensures
            final(self).wf(),
            final(self)@ == after_frame(old(self)@, phase),
            promotion == frame_promotion(old(self)@, phase),
    {
        match phase {
            Phase::CheckMate => {
                self.game_end = true;
                None
            },
            Phase::SelectPromotion => {
                self.promoting = true;
                Some(self.selected_prom)
            },
            _ => None,
        }
    }

    /// Takes the engine's answer to a promotion: once it is accepted the
    /// menu closes and the choice starts over.
    pub fn promotion_reply(&mut self, accepted: bool)
        requires
            old(self).wf(),
        ensures
            final(self).wf(),
            final(self)@ == after_promotion_reply(old(self)@, accepted),
    {
        if accepted {
            self.promoting = false;
            self.selected_prom = Piece::Pawn;
        }
    }

    /// The lines that tell who plays, or who won, when `to_move` is the
    /// player to move.
    pub fn status(&self, to_move: Player) -> (lines: Vec<Caption>)
        ensures
            lines@ == status_of(self.game_end, to_move),
    {
        let mut lines: Vec<Caption> = Vec::new();
        if self.game_end {
            let winner = match to_move {
                Player::White => Caption::BlackWins,
                Player::Black => Caption::WhiteWins,
            };
            lines.push(winner);
            lines.push(Caption::PressRestart);
        } else {
            let turn = match to_move {
                Player::White => Caption::WhitePlaying,
                Player::Black => Caption::BlackPlaying,
            };
            lines.push(turn);
        }
        lines
    }
}

/// The promotion menu for a frame in which the engine is in `phase`.
pub fn promotion_prompt(phase: Phase) -> (lines: Vec<Caption>)
    ensures
        lines@ == promotion_menu(phase),
{
    let mut lines: Vec<Caption> = Vec::new();
    if let Phase::SelectPromotion = phase {
        lines.push(Caption::SelectPromotion);
        lines.push(Caption::RookOption);
        lines.push(Caption::KnightOption);
        lines.push(Caption::BishopOption);
        lines.push(Caption::QueenOption);
    }
    lines
}

impl Caption {
    /// The words of the line.
    pub fn text(&self) -> (s: &'static str)
        ensures
            s@ == caption_text(*self)@,
    {
        match self {
            Caption::WhiteWins => "White wins!",
            Caption::BlackWins => "Black wins!",
            Caption::PressRestart => "Press 'R' to restart.",
            Caption::WhitePlaying => "White is playing.",
            Caption::BlackPlaying => "Black is playing.",
            Caption::SelectPromotion => "Select promotion:",
            Caption::RookOption => "1: Rook",
            Caption::KnightOption => "2: Knight",
            Caption::BishopOption => "3: Bishop",
            Caption::QueenOption => "4: Queen",
        }
    }
}

/// The words of each line.
pub open spec fn caption_text(c: Caption) -> &'static str {
    match c {
        Caption::WhiteWins => "White wins!",
        Caption::BlackWins => "Black wins!",
        Caption::PressRestart => "Press 'R' to restart.",
        Caption::WhitePlaying => "White is playing.",
        Caption::BlackPlaying => "Black is playing.",
        Caption::SelectPromotion => "Select promotion:",
        Caption::RookOption => "1: Rook",
        Caption::KnightOption => "2: Knight",
        Caption::BishopOption => "3: Bishop",
        Caption::QueenOption => "4: Queen",
    }
}

/// A click picks nothing and changes nothing while the game is over or a
/// promotion waits.
pub proof fn lemma_click_blocked(s: GameView)
    requires
        s.game_end || s.promoting,
    ensures
        input_command(s, Input::LeftClick) == Command::Nothing,
        after_input(s, Input::LeftClick) == s,
{
}

/// A click in a running game with no promotion waiting always picks.
pub proof fn lemma_click_picks(s: GameView)
    requires
        !s.game_end,
        !s.promoting,
    ensures
        input_command(s, Input::LeftClick) == Command::Pick,
        after_input(s, Input::LeftClick) == s,
{
}

/// Escape always closes the window and changes nothing else.
pub proof fn lemma_escape_closes(s: GameView)
    ensures
        input_command(s, Input::KeyPress(Key::Escape)) == Command::Close,
        after_input(s, Input::KeyPress(Key::Escape)) == s,
{
}

/// R restarts an ended game, and only an ended one: the engine is reset and
/// the game runs again; in a running game R does nothing.
pub proof fn lemma_restart_only_after_end(s: GameView)
    ensures
        s.game_end ==> input_command(s, Input::KeyPress(Key::R)) == Command::ResetChess
            && after_input(s, Input::KeyPress(Key::R)) == (GameView { game_end: false, ..s }),
        !s.game_end ==> input_command(s, Input::KeyPress(Key::R)) == Command::Nothing
            && after_input(s, Input::KeyPress(Key::R)) == s,
{
}

/// The promotion choice changes only while a promotion waits, and only by
/// the keys 1 to 4; no input opens or closes the promotion menu, and the
/// board is left as it is.
pub proof fn lemma_choice_only_while_promoting(s: GameView, input: Input)
    ensures
        after_input(s, input).promoting == s.promoting,
        after_input(s, input).tiles == s.tiles,
        !s.promoting ==> after_input(s, input).selected_prom == s.selected_prom,
        s.promoting ==> (after_input(s, input).selected_prom == match input {
            Input::KeyPress(Key::Num1) => Piece::Rook,
            Input::KeyPress(Key::Num2) => Piece::Knight,
            Input::KeyPress(Key::Num3) => Piece::Bishop,
            Input::KeyPress(Key::Num4) => Piece::Queen,
            _ => s.selected_prom,
        }),
{
}

/// An ended game stays ended until R is pressed: no frame and no answer of
/// the engine clears the end of the game, and no other input does.
pub proof fn lemma_end_is_sticky(s: GameView, input: Input, phase: Phase, accepted: bool)
    requires
        s.game_end,
        input != Input::KeyPress(Key::R),
    ensures
        after_input(s, input).game_end,
        after_frame(s, phase).game_end,
        after_promotion_reply(s, accepted).game_end,
{
}

/// A frame of checkmate ends the game; a frame with a waiting promotion opens
/// the menu and hands the current choice to the engine.
pub proof fn lemma_frame_outcomes(s: GameView)
    ensures
        after_frame(s, Phase::CheckMate).game_end,
        frame_promotion(s, Phase::CheckMate) is None,
        after_frame(s, Phase::SelectPromotion).promoting,
        frame_promotion(s, Phase::SelectPromotion) == Some(s.selected_prom),
{
}

/// Once the engine accepts a promotion the menu is closed and the next
/// promotion starts from no choice; a refused one changes nothing.
pub proof fn lemma_promotion_round(s: GameView)
    ensures
        !after_promotion_reply(s, true).promoting,
        after_promotion_reply(s, true).selected_prom == Piece::Pawn,
        after_promotion_reply(s, true).game_end == s.game_end,
        after_promotion_reply(s, false) == s,
{
}

/// An ended game announces one winner, the player who is not to move, and
/// the way to restart; a running game names the player to move.
pub proof fn lemma_status_lines(game_end: bool, to_move: Player)
    ensures
        game_end ==> status_of(game_end, to_move).len() == 2 && status_of(game_end, to_move)[0]
            == (if to_move == Player::White {
            Caption::BlackWins
        } else {
            Caption::WhiteWins
        }) && status_of(game_end, to_move)[1] == Caption::PressRestart,
        !game_end ==> status_of(game_end, to_move) =~= seq![
            if to_move == Player::White {
                Caption::WhitePlaying
            } else {
                Caption::BlackPlaying
            },
        ],
{
}

/// Starting a pick twice on the same square leaves the screen as starting it
/// once does (the command, `pick_command`, depends on the phase and the
/// square alone): `begin_pick` clears the board and keeps its colours and
/// flags, and doing that again changes nothing.
pub proof fn lemma_pick_start_idempotent(s0: GameView, s1: GameView, s2: GameView)
    requires
        is_cleared(s1.tiles),
        same_shades(s1.tiles, s0.tiles),
        s1.game_end == s0.game_end,
        s1.promoting == s0.promoting,
        s1.selected_prom == s0.selected_prom,
        is_cleared(s2.tiles),
        same_shades(s2.tiles, s1.tiles),
        s2.game_end == s1.game_end,
        s2.promoting == s1.promoting,
        s2.selected_prom == s1.selected_prom,
    ensures
        s2 == s1,
{
    lemma_clearing_idempotent(s0.tiles, s1.tiles, s2.tiles);
}

/// Only Escape closes the window, only a click picks, only R restarts; every
/// other key and event asks for nothing.
pub proof fn lemma_commands_by_input(s: GameView, input: Input)
    ensures
        input_command(s, input) == Command::Close <==> input == Input::KeyPress(Key::Escape),
        input_command(s, input) == Command::Pick ==> input == Input::LeftClick,
        input_command(s, input) == Command::ResetChess ==> input == Input::KeyPress(Key::R),
        input != Input::KeyPress(Key::Escape) && input != Input::KeyPress(Key::R) && input
            != Input::LeftClick ==> input_command(s, input) == Command::Nothing,
{
}

/// A pick names the clicked square: its column as given and its row counted
/// from the bottom (`7 - row`), the same square whether a piece or a move is
/// picked; in any other phase nothing is asked.
pub proof fn lemma_pick_names_clicked_square(x: usize, row: usize)
    requires
        row <= 7,
    ensures
        pick_command(Phase::SelectPiece, x, (7 - row) as usize) == (PickCommand::SelectPiece {
            x: x as u8,
            y: (7 - row) as u8,
        }),
        pick_command(Phase::SelectMove, x, (7 - row) as usize) == (PickCommand::SelectMove {
            x: x as u8,
            y: (7 - row) as u8,
        }),
        pick_command(Phase::SelectPiece, x, (7 - row) as usize) matches PickCommand::SelectPiece {
            x: px,
            y: py,
        } && pick_command(Phase::SelectMove, x, (7 - row) as usize) matches PickCommand::SelectMove {
            x: mx,
            y: my,
        } && px == mx && py == my,
        pick_command(Phase::SelectPromotion, x, (7 - row) as usize) == PickCommand::Nothing,
        pick_command(Phase::CheckMate, x, (7 - row) as usize) == PickCommand::Nothing,
        pick_command(Phase::Other, x, (7 - row) as usize) == PickCommand::Nothing,
{
}

/// Only a checkmate frame ends the game, only a promotion frame opens the
/// promotion menu, and no frame touches the board or the promotion choice.
pub proof fn lemma_frame_changes_only_its_flag(s: GameView, phase: Phase)
    ensures
        phase != Phase::CheckMate ==> after_frame(s, phase).game_end == s.game_end,
        phase == Phase::CheckMate ==> after_frame(s, phase).game_end,
        phase != Phase::SelectPromotion ==> after_frame(s, phase).promoting == s.promoting,
        phase == Phase::SelectPromotion ==> after_frame(s, phase).promoting,
        after_frame(s, phase).tiles == s.tiles,
        after_frame(s, phase).selected_prom == s.selected_prom,
        frame_promotion(s, phase) is Some <==> phase == Phase::SelectPromotion,
{
}

/// The promotion menu is shown exactly while a promotion waits, and then
/// lists the prompt and the four pieces in key order.
pub proof fn lemma_menu_only_while_promoting(phase: Phase)
    ensures
        promotion_menu(phase).len() > 0 <==> phase == Phase::SelectPromotion,
        phase == Phase::SelectPromotion ==> promotion_menu(phase).len() == 5 && promotion_menu(
            phase,
        )[0] == Caption::SelectPromotion && promotion_menu(phase)[1] == Caption::RookOption
            && promotion_menu(phase)[2] == Caption::KnightOption && promotion_menu(phase)[3]
            == Caption::BishopOption && promotion_menu(phase)[4] == Caption::QueenOption,
{
}

} // verus!
