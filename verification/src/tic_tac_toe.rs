//! The tic-tac-toe domain: a 3 x 3 board and an alternating turn, plugged
//! into the generic interaction loop. A move onto a free cell places the
//! current player's mark and flips the turn; win detection over all eight
//! lines takes precedence over tie detection.

use vstd::prelude::*;
use crate::application::{Application, Control, StateMachine};

verus! {

/// A player's mark.
#[derive(Clone, Copy, PartialEq, Eq, Structural, Debug)]
pub enum Player {
    X,
    O,
}

/// The player whose turn comes next.
pub open spec fn other(p: Player) -> Player {
    match p {
        Player::X => Player::O,
        Player::O => Player::X,
    }
}

/// A row or column number of the 3 x 3 board.
#[derive(Clone, Copy, PartialEq, Eq, Structural, Debug)]
pub enum Index {
    Zero,
    One,
    Two,
}

/// The numeric value of an index.
pub open spec fn index_val(i: Index) -> int {
    match i {
        Index::Zero => 0,
        Index::One => 1,
        Index::Two => 2,
    }
}

impl Index {
    /// The numeric value of the index.
    pub fn as_usize(self) -> (n: usize)
        ensures
            n == index_val(self),
    {
        match self {
            Index::Zero => 0,
            Index::One => 1,
            Index::Two => 2,
        }
    }

    /// Parses a digit character; only `0`, `1` and `2` are legal indices.
    pub fn try_from(value: char) -> (r: Result<Index, &'static str>)
        ensures
            r is Ok <==> (value == '0' || value == '1' || value == '2'),
            value == '0' ==> r == Ok::<Index, &'static str>(Index::Zero),
            value == '1' ==> r == Ok::<Index, &'static str>(Index::One),
            value == '2' ==> r == Ok::<Index, &'static str>(Index::Two),
    {
        match value {
            '0' => Ok(Index::Zero),
            '1' => Ok(Index::One),
            '2' => Ok(Index::Two),
            _ => Err("Illegal index, expected one of 0, 1 or 2"),
        }
    }
}

/// The 3 x 3 grid, one optional mark per cell.
#[derive(Clone, Copy, PartialEq, Eq, Structural, Debug)]
pub struct Board {
    pub c00: Option<Player>,
    pub c01: Option<Player>,
    pub c02: Option<Player>,
    pub c10: Option<Player>,
    pub c11: Option<Player>,
    pub c12: Option<Player>,
    pub c20: Option<Player>,
    pub c21: Option<Player>,
    pub c22: Option<Player>,
}

/// The board with no marks placed.
pub open spec fn empty_board() -> Board {
    Board {
        c00: None,
        c01: None,
        c02: None,
        c10: None,
        c11: None,
        c12: None,
        c20: None,
        c21: None,
        c22: None,
    }
}

impl Board {
    /// The mark at row `r`, column `c`.
    pub open spec fn cell_at(self, r: int, c: int) -> Option<Player> {
        if r == 0 {
            if c == 0 {
                self.c00
            } else if c == 1 {
                self.c01
            } else {
                self.c02
            }
        } else if r == 1 {
            if c == 0 {
                self.c10
            } else if c == 1 {
                self.c11
            } else {
                self.c12
            }
        } else {
            if c == 0 {
                self.c20
            } else if c == 1 {
                self.c21
            } else {
                self.c22
            }
        }
    }

    /// Reads the mark at row `r`, column `c`.
    pub fn get(&self, r: Index, c: Index) -> (v: Option<Player>)
        ensures
            v == self.cell_at(index_val(r), index_val(c)),
    {
        match (r, c) {
            (Index::Zero, Index::Zero) => self.c00,
            (Index::Zero, Index::One) => self.c01,
            (Index::Zero, Index::Two) => self.c02,
            (Index::One, Index::Zero) => self.c10,
            (Index::One, Index::One) => self.c11,
            (Index::One, Index::Two) => self.c12,
            (Index::Two, Index::Zero) => self.c20,
            (Index::Two, Index::One) => self.c21,
            (Index::Two, Index::Two) => self.c22,
        }
    }

    /// Places `p`'s mark at row `r`, column `c`, leaving every other cell as
    /// it was.
    pub fn set(&mut self, r: Index, c: Index, p: Player)
        ensures
            *final(self) == placed(*old(self), index_val(r), index_val(c), p),
    {
        match (r, c) {
            (Index::Zero, Index::Zero) => self.c00 = Some(p),
            (Index::Zero, Index::One) => self.c01 = Some(p),
            (Index::Zero, Index::Two) => self.c02 = Some(p),
            (Index::One, Index::Zero) => self.c10 = Some(p),
            (Index::One, Index::One) => self.c11 = Some(p),
            (Index::One, Index::Two) => self.c12 = Some(p),
            (Index::Two, Index::Zero) => self.c20 = Some(p),
            (Index::Two, Index::One) => self.c21 = Some(p),
            (Index::Two, Index::Two) => self.c22 = Some(p),
        }
    }
}

/// The board after placing `p`'s mark at row `r`, column `c`.
pub open spec fn placed(b: Board, r: int, c: int, p: Player) -> Board {
    if r == 0 {
        if c == 0 {
            Board { c00: Some(p), ..b }
        } else if c == 1 {
            Board { c01: Some(p), ..b }
        } else {
            Board { c02: Some(p), ..b }
        }
    } else if r == 1 {
        if c == 0 {
            Board { c10: Some(p), ..b }
        } else if c == 1 {
            Board { c11: Some(p), ..b }
        } else {
            Board { c12: Some(p), ..b }
        }
    } else {
        if c == 0 {
            Board { c20: Some(p), ..b }
        } else if c == 1 {
            Board { c21: Some(p), ..b }
        } else {
            Board { c22: Some(p), ..b }
        }
    }
}

/// Whether the three cells at the given coordinates all hold `p`'s mark.
pub open spec fn line_of(
    b: Board,
    p: Player,
    r0: int,
    c0: int,
    r1: int,
    c1: int,
    r2: int,
    c2: int,
) -> bool {
    &&& b.cell_at(r0, c0) == Some(p)
    &&& b.cell_at(r1, c1) == Some(p)
    &&& b.cell_at(r2, c2) == Some(p)
}

/// Whether `p` holds one of the eight winning lines: three rows, three
/// columns, and the two diagonals.
pub open spec fn wins(b: Board, p: Player) -> bool {
    ||| line_of(b, p, 0, 0, 0, 1, 0, 2)
    ||| line_of(b, p, 1, 0, 1, 1, 1, 2)
    ||| line_of(b, p, 2, 0, 2, 1, 2, 2)
    ||| line_of(b, p, 0, 0, 1, 0, 2, 0)
    ||| line_of(b, p, 0, 1, 1, 1, 2, 1)
    ||| line_of(b, p, 0, 2, 1, 2, 2, 2)
    ||| line_of(b, p, 0, 0, 1, 1, 2, 2)
    ||| line_of(b, p, 0, 2, 1, 1, 2, 0)
}

/// Whether every cell of the board is occupied.
pub open spec fn full(b: Board) -> bool {
    forall|r: int, c: int| 0 <= r < 3 && 0 <= c < 3 ==> b.cell_at(r, c) is Some
}

/// Whether this cell holds `p`'s mark.
fn cell_is(v: Option<Player>, p: Player) -> (r: bool)
    ensures
        r == (v == Some(p)),
{
    match v {
        Some(q) => q == p,
        None => false,
    }
}

/// Whether `p` holds the line through the three given cells.
fn line_is(a: Option<Player>, b: Option<Player>, c: Option<Player>, p: Player) -> (r: bool)
    ensures
        r == (a == Some(p) && b == Some(p) && c == Some(p)),
{
    cell_is(a, p) && cell_is(b, p) && cell_is(c, p)
}

/// Checks all eight winning lines for `p`'s mark.
pub fn is_winner(board: Board, p: Player) -> (r: bool)
    ensures
        r == wins(board, p),
{
    line_is(board.c00, board.c01, board.c02, p) || line_is(board.c10, board.c11, board.c12, p)
        || line_is(board.c20, board.c21, board.c22, p) || line_is(
        board.c00,
        board.c10,
        board.c20,
        p,
    ) || line_is(board.c01, board.c11, board.c21, p) || line_is(board.c02, board.c12, board.c22, p)
        || line_is(board.c00, board.c11, board.c22, p) || line_is(board.c02, board.c11, board.c20, p)
}

/// Checks whether the board is completely occupied.
pub fn is_tie(board: Board) -> (r: bool)
    ensures
        r == full(board),
{
    let r = board.c00.is_some() && board.c01.is_some() && board.c02.is_some()
        && board.c10.is_some() && board.c11.is_some() && board.c12.is_some()
        && board.c20.is_some() && board.c21.is_some() && board.c22.is_some();
    proof {
        if r {
            assert forall|rr: int, cc: int| 0 <= rr < 3 && 0 <= cc < 3 implies board.cell_at(
                rr,
                cc,
            ) is Some by {}
        }
        if full(board) {
            assert(board.cell_at(0, 0) is Some);
            assert(board.cell_at(0, 1) is Some);
            assert(board.cell_at(0, 2) is Some);
            assert(board.cell_at(1, 0) is Some);
            assert(board.cell_at(1, 1) is Some);
            assert(board.cell_at(1, 2) is Some);
            assert(board.cell_at(2, 0) is Some);
            assert(board.cell_at(2, 1) is Some);
            assert(board.cell_at(2, 2) is Some);
        }
    }
    r
}

/// The game's state: the board and whose turn it is.
#[derive(Clone, Copy, PartialEq, Eq, Structural, Debug)]
pub struct TicTacToeState {
    pub board: Board,
    pub turn: Player,
}

impl TicTacToeState {
    /// The opening position: an empty board, X to move.
    pub fn init() -> (s: TicTacToeState)
        ensures
            s == (TicTacToeState { board: empty_board(), turn: Player::X }),
    {
        TicTacToeState {
            board: Board {
                c00: None,
                c01: None,
                c02: None,
                c10: None,
                c11: None,
                c12: None,
                c20: None,
                c21: None,
                c22: None,
            },
            turn: Player::X,
        }
    }
}

/// A decoded tic-tac-toe command.
#[derive(Clone, Copy, PartialEq, Eq, Structural, Debug)]
pub enum TicTacToeInput {
    Move(Index, Index),
    Exit,
    Unknown,
}

/// The outcome of applying one input to the game.
#[derive(Clone, Copy, PartialEq, Eq, Structural, Debug)]
pub enum TicTacToeEvent {
    Moved(Player, usize, usize),
    Exited,
    MovedAndWon(Player, usize, usize),
    MovedAndTie(Player, usize, usize),
    InputIgnored,
}

/// What a digit character denotes as an index, if anything.
pub open spec fn digit_index(c: char) -> Option<Index> {
    if c == '0' {
        Some(Index::Zero)
    } else if c == '1' {
        Some(Index::One)
    } else if c == '2' {
        Some(Index::Two)
    } else {
        None
    }
}

/// What two characters of raw input mean: a leading `x` exits, two digits in
/// range denote (row, column), anything else is unrecognized.
pub open spec fn to_input_spec(c0: char, c1: char) -> TicTacToeInput {
    if c0 == 'x' {
        TicTacToeInput::Exit
    } else {
        match (digit_index(c0), digit_index(c1)) {
            (Some(r), Some(c)) => TicTacToeInput::Move(r, c),
            _ => TicTacToeInput::Unknown,
        }
    }
}

/// Decodes two characters of raw input; total, so decoding never fails.
pub fn to_input(chars: (char, char)) -> (input: TicTacToeInput)
    ensures
        input == to_input_spec(chars.0, chars.1),
{
    let (c0, c1) = chars;
    if c0 == 'x' {
        TicTacToeInput::Exit
    } else {
        match (Index::try_from(c0), Index::try_from(c1)) {
            (Ok(r), Ok(c)) => TicTacToeInput::Move(r, c),
            _ => TicTacToeInput::Unknown,
        }
    }
}

/// The game's transition function: a move onto an occupied cell is rejected
/// without any mutation; a move onto a free cell places the mover's mark and
/// flips the turn, and is reported as a win if it completes one of the eight
/// lines, else as a tie if it fills the board, else as a plain move. `Exit`
/// and unrecognized input change nothing.
pub open spec fn update_spec(s: TicTacToeState, input: TicTacToeInput) -> (
    TicTacToeState,
    TicTacToeEvent,
) {
    match input {
        TicTacToeInput::Move(r, c) => {
            let ri = index_val(r);
            let ci = index_val(c);
            if s.board.cell_at(ri, ci) is Some {
                (s, TicTacToeEvent::InputIgnored)
            } else {
                let p = s.turn;
                let b2 = placed(s.board, ri, ci, p);
                let s2 = TicTacToeState { board: b2, turn: other(p) };
                if wins(b2, p) {
                    (s2, TicTacToeEvent::MovedAndWon(p, ri as usize, ci as usize))
                } else if full(b2) {
                    (s2, TicTacToeEvent::MovedAndTie(p, ri as usize, ci as usize))
                } else {
                    (s2, TicTacToeEvent::Moved(p, ri as usize, ci as usize))
                }
            }
        },
        TicTacToeInput::Exit => (s, TicTacToeEvent::Exited),
        TicTacToeInput::Unknown => (s, TicTacToeEvent::InputIgnored),
    }
}

/// Applies one input to the game in place and reports the outcome; total over
/// all states and inputs, and never leaves a partial mutation.
pub fn update(state: &mut TicTacToeState, input: TicTacToeInput) -> (event: TicTacToeEvent)
    ensures
        *final(state) == update_spec(*old(state), input).0,
        event == update_spec(*old(state), input).1,
{
    match input {
        TicTacToeInput::Move(r, c) => {
            if state.board.get(r, c).is_some() {
                TicTacToeEvent::InputIgnored
            } else {
                let p = state.turn;
                state.board.set(r, c, p);
                state.turn = match p {
                    Player::X => Player::O,
                    Player::O => Player::X,
                };
                let ru = r.as_usize();
                let cu = c.as_usize();
                if is_winner(state.board, p) {
                    TicTacToeEvent::MovedAndWon(p, ru, cu)
                } else if is_tie(state.board) {
                    TicTacToeEvent::MovedAndTie(p, ru, cu)
                } else {
                    TicTacToeEvent::Moved(p, ru, cu)
                }
            }
        },
        TicTacToeInput::Exit => TicTacToeEvent::Exited,
        TicTacToeInput::Unknown => TicTacToeEvent::InputIgnored,
    }
}

/// Which events end the loop: `Exited` with a status of its own, and both
/// game-over outcomes with a common, distinct status.
pub open spec fn process_event_spec(event: TicTacToeEvent) -> Control {
    match event {
        TicTacToeEvent::Exited => Control::Stop(0x0100),
        TicTacToeEvent::MovedAndWon(_, _, _) => Control::Stop(0x0200),
        TicTacToeEvent::MovedAndTie(_, _, _) => Control::Stop(0x0200),
        _ => Control::Continue,
    }
}

/// Decides, from the event of a cycle, whether the loop goes on.
pub fn process_event(event: &TicTacToeEvent) -> (c: Control)
    ensures
        c == process_event_spec(*event),
{
    match event {
        TicTacToeEvent::Exited => Control::Stop(0x0100),
        TicTacToeEvent::MovedAndWon(_, _, _) => Control::Stop(0x0200),
        TicTacToeEvent::MovedAndTie(_, _, _) => Control::Stop(0x0200),
        _ => Control::Continue,
    }
}

/// Extension point for propagating a freshly updated state; nothing listens
/// to it yet.
#[allow(unused_variables)]
pub fn publish(state: &TicTacToeState) {
}

/// The game as a pluggable domain of the interaction loop.
pub struct TicTacToeGame;

impl StateMachine for TicTacToeGame {
    type Interaction = (char, char);

    type Input = TicTacToeInput;

    type State = TicTacToeState;

    type Event = TicTacToeEvent;

    open spec fn wf(s: TicTacToeState) -> bool {
        true
    }

    open spec fn decode_spec(i: (char, char)) -> TicTacToeInput {
        to_input_spec(i.0, i.1)
    }

    open spec fn evolve_spec(s: TicTacToeState, i: TicTacToeInput) -> (
        TicTacToeState,
        TicTacToeEvent,
    ) {
        update_spec(s, i)
    }

    open spec fn handle_spec(e: TicTacToeEvent) -> Control {
        process_event_spec(e)
    }

    fn decode(i: (char, char)) -> TicTacToeInput {
        to_input(i)
    }

    fn evolve(s: &mut TicTacToeState, i: TicTacToeInput) -> TicTacToeEvent {
        update(s, i)
    }

    fn handle(e: &TicTacToeEvent) -> Control {
        process_event(e)
    }

    fn publish(s: &TicTacToeState) {
        publish(s)
    }
}

/// Law: moving onto an occupied cell never changes the state and always
/// yields `InputIgnored`.
pub proof fn lemma_no_overwrite(s: TicTacToeState, r: Index, c: Index)
    requires
        s.board.cell_at(index_val(r), index_val(c)) is Some,
    ensures
        update_spec(s, TicTacToeInput::Move(r, c)).0 == s,
        update_spec(s, TicTacToeInput::Move(r, c)).1 == TicTacToeEvent::InputIgnored,
{
}

/// Law: after any accepted move, the turn differs from its pre-move value.
pub proof fn lemma_turn_alternates(s: TicTacToeState, r: Index, c: Index)
    requires
        s.board.cell_at(index_val(r), index_val(c)) is None,
    ensures
        update_spec(s, TicTacToeInput::Move(r, c)).0.turn == other(s.turn),
        update_spec(s, TicTacToeInput::Move(r, c)).0.turn != s.turn,
{
}

/// Law: a move that completes a winning line is reported as `MovedAndWon`,
/// even when the same move also fills the board.
pub proof fn lemma_win_takes_precedence_over_tie(s: TicTacToeState, r: Index, c: Index)
    requires
        s.board.cell_at(index_val(r), index_val(c)) is None,
        wins(placed(s.board, index_val(r), index_val(c), s.turn), s.turn),
    ensures
        update_spec(s, TicTacToeInput::Move(r, c)).1 == TicTacToeEvent::MovedAndWon(
            s.turn,
            index_val(r) as usize,
            index_val(c) as usize,
        ),
{
}

impl TicTacToeGame {
    /// A fresh game bound to the loop: an empty board, X to move.
    pub fn new() -> (app: Application<TicTacToeGame>)
        ensures
            app.state == (TicTacToeState { board: empty_board(), turn: Player::X }),
    {
        Application { state: TicTacToeState::init() }
    }
}

} // verus!

