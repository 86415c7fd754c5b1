//! Training rows: the moves of an evaluated position in standard notation,
//! with their scores as the side to move sees them.
//!
//! The rules of chess belong to `shakmaty`. This module asks it whose turn
//! it is, whether a move is legal and how the move is written.

use vstd::prelude::*;
use shakmaty::fen::Fen;
use shakmaty::san::San;
use shakmaty::uci::Uci;
use shakmaty::Move as LegalMove;
use shakmaty::{CastlingMode, Chess, FromSetup, Position};
use crate::aggregator::{EvaluationResult, Slots};
use crate::notation::{BoardMove, Role};
use crate::variation::RawVariation;

verus! {

#[verifier::external_type_specification]
#[verifier::external_body]
pub struct ExFen(Fen);

#[verifier::external_type_specification]
#[verifier::external_body]
pub struct ExChess(Chess);

#[verifier::external_type_specification]
#[verifier::external_body]
pub struct ExLegalMove(LegalMove);

/// The side to move.
#[derive(Clone, Copy, PartialEq, Eq, Structural, Debug)]
pub enum Color {
    White,
    Black,
}

/// Why a variation could not be turned into a move of a training row.
#[derive(Clone, Copy, PartialEq, Eq, Structural, Debug)]
pub enum MoveError {
    /// The board string is no position of a standard game.
    Position,
    /// The variation's move is not legal in the position, or it has none.
    IllegalMove,
}

/// The names of the two players of a game.
#[derive(Clone, PartialEq, Eq, Debug)]
pub struct Players {
    pub white: String,
    pub black: String,
}

impl Default for Players {
    fn default() -> (p: Players)
        ensures
            p.white@ == Seq::<char>::empty(),
            p.black@ == Seq::<char>::empty(),
    {
        Players { white: String::new(), black: String::new() }
    }
}

/// One candidate move of a training row.
#[derive(Clone, PartialEq, Eq, Debug)]
pub struct Move {
    /// The move in standard algebraic notation.
    pub move_: String,
    /// The score in centipawns: the engine's score for White to move, its
    /// negation for Black to move.
    pub evaluation: i64,
}

/// A move with its notation as a sequence of characters.
pub struct MoveView {
    pub move_: Seq<char>,
    pub evaluation: int,
}

impl View for Move {
    type V = MoveView;

    open spec fn view(&self) -> MoveView {
        MoveView { move_: self.move_@, evaluation: self.evaluation as int }
    }
}

/// The candidate moves of a training row, best first.
#[derive(Clone, PartialEq, Eq, Debug)]
pub struct Moves {
    pub one: Move,
    pub two: Option<Move>,
    pub three: Option<Move>,
}

/// The candidate moves with their notations as sequences.
pub struct MovesView {
    pub one: MoveView,
    pub two: Option<MoveView>,
    pub three: Option<MoveView>,
}

impl View for Moves {
    type V = MovesView;

    open spec fn view(&self) -> MovesView {
        MovesView {
            one: self.one@,
            two: match self.two {
                Some(m) => Some(m@),
                None => None,
            },
            three: match self.three {
                Some(m) => Some(m@),
                None => None,
            },
        }
    }
}

/// One training row.
#[derive(Clone, PartialEq, Eq, Debug)]
pub struct Question {
    pub fen: String,
    pub players: Players,
    pub moves: Moves,
    pub pgn: String,
    pub turn_number: usize,
}

/// The magnitude of a score, in centipawns, above which a position is too
/// lopsided to serve as a training row.
pub const CUTOFF: i32 = 2000;

/// What `shakmaty::fen::Fen::from_ascii` makes of a board string.
pub uninterp spec fn fen_read(text: Seq<char>) -> Option<Fen>;

/// The position that `shakmaty::Chess::from_setup` sets up from a board
/// string, under the standard castling rules.
pub uninterp spec fn position_of(fen: Fen) -> Option<Chess>;

/// The side that `shakmaty::Position::turn` gives for a position.
pub uninterp spec fn turn_of(position: Chess) -> Color;

/// The legal move that `shakmaty::uci::Uci::to_move` finds in a position for
/// two squares, given by their numbers, and a promotion letter; none where
/// there is no such legal move.
pub uninterp spec fn legal_move(position: Chess, from: u8, to: u8, promotion: Option<char>)
    -> Option<LegalMove>;

/// The notation that `shakmaty::san::San::from_move` writes for a move in a
/// position.
pub uninterp spec fn san_of(position: Chess, m: LegalMove) -> Seq<char>;

/// The score as the side to move sees it: the engine's score for White, its
/// negation for Black.
pub open spec fn relative(cp: i32, turn: Color) -> int {
    match turn {
        Color::White => cp as int,
        Color::Black => -(cp as int),
    }
}

/// The lower-case letter of a role.
pub open spec fn role_letter(role: Role) -> char {
    match role {
        Role::Pawn => 'p',
        Role::Knight => 'n',
        Role::Bishop => 'b',
        Role::Rook => 'r',
        Role::Queen => 'q',
        Role::King => 'k',
    }
}

/// The promotion letter of a move, if it promotes.
pub open spec fn promotion_letter(m: BoardMove) -> Option<char> {
    match m.promotion {
        Some(role) => Some(role_letter(role)),
        None => None,
    }
}

/// The position that a board string sets up, if it sets one up.
pub open spec fn position_read(fen: Seq<char>) -> Option<Chess> {
    match fen_read(fen) {
        Some(f) => position_of(f),
        None => None,
    }
}

/// The move of a training row that a variation gives in a position: the
/// position must be one, and the variation must hold a move on the board
/// that is legal in it.
pub open spec fn variation_move(v: RawVariation, fen: Seq<char>) -> Result<MoveView, MoveError> {
    match position_read(fen) {
        None => Err(MoveError::Position),
        Some(position) => match v.uci_move {
            None => Err(MoveError::IllegalMove),
            Some(b) => if !b.wf() {
                Err(MoveError::IllegalMove)
            } else {
                match legal_move(
                    position,
                    b.from.spec_index() as u8,
                    b.to.spec_index() as u8,
                    promotion_letter(b),
                ) {
                    None => Err(MoveError::IllegalMove),
                    Some(m) => Ok(
                        MoveView {
                            move_: san_of(position, m),
                            evaluation: relative(v.cp, turn_of(position)),
                        },
                    ),
                }
            },
        },
    }
}

/// A result can serve as a training row: no slot reports a mate, and no
/// score lies beyond the cutoff.
pub open spec fn usable(slots: Slots) -> bool {
    forall|i: int|
        0 <= i < slots.len() ==> (#[trigger] slots[i] matches Some(v) ==> !v.evaluated_as_mate
            && -CUTOFF <= v.cp <= CUTOFF)
}

/// The slot of a rank, counted from zero; empty beyond the last.
pub open spec fn slot_at(slots: Slots, i: int) -> Option<RawVariation> {
    if 0 <= i < slots.len() {
        slots[i]
    } else {
        None
    }
}

/// The move of a slot, where the slot is filled.
pub open spec fn optional_move(slot: Option<RawVariation>, fen: Seq<char>) -> Result<
    Option<MoveView>,
    MoveError,
> {
    match slot {
        None => Ok(None),
        Some(v) => match variation_move(v, fen) {
            Ok(m) => Ok(Some(m)),
            Err(e) => Err(e),
        },
    }
}

/// The candidate moves of a result. A result that is not usable, or whose
/// first slot is empty, gives none. Otherwise the first three slots are
/// converted in order, and the first that cannot be is the error.
pub open spec fn converted(fen: Seq<char>, slots: Slots) -> Result<Option<MovesView>, MoveError> {
    if !usable(slots) {
        Ok(None)
    } else {
        match slot_at(slots, 0) {
            None => Ok(None),
            Some(first) => match variation_move(first, fen) {
                Err(e) => Err(e),
                Ok(one) => match optional_move(slot_at(slots, 1), fen) {
                    Err(e) => Err(e),
                    Ok(two) => match optional_move(slot_at(slots, 2), fen) {
                        Err(e) => Err(e),
                        Ok(three) => Ok(Some(MovesView { one, two, three })),
                    },
                },
            },
        }
    }
}

/// Calls `shakmaty::fen::Fen::from_ascii` on the text's bytes. The contract
/// names the result; a parse error becomes `None`.
#[verifier::external_body]
fn read_fen(text: &str) -> (r: Option<Fen>)
    ensures
        r == fen_read(text@),
{
    Fen::from_ascii(text.as_bytes()).ok()
}

/// Calls `shakmaty::Chess::from_setup` with the standard castling mode. The
/// contract names the result; a setup that is no legal position becomes
/// `None`.
#[verifier::external_body]
fn set_up(fen: &Fen) -> (r: Option<Chess>)
    ensures
        r == position_of(*fen),
{
    Chess::from_setup(fen.as_setup().clone(), CastlingMode::Standard).ok()
}

/// Calls `shakmaty::Position::turn`. The contract names the result.
#[verifier::external_body]
fn side_to_move(position: &Chess) -> (c: Color)
    ensures
        c == turn_of(*position),
{
    match position.turn() {
        shakmaty::Color::White => Color::White,
        shakmaty::Color::Black => Color::Black,
    }
}

/// Calls `shakmaty::uci::Uci::to_move` on the move between the two squares.
/// The contract names the result, and leaves out square numbers beyond the
/// board, on which `shakmaty::Square::new` panics; a move that is not legal
/// becomes `None`.
#[verifier::external_body]
fn find_move(position: &Chess, from: u8, to: u8, promotion: Option<char>) -> (r: Option<
    LegalMove,
>)
    requires
        from < 64,
        to < 64,
    ensures
        r == legal_move(*position, from, to, promotion),
{
    let uci = Uci::Normal {
        from: shakmaty::Square::new(from.into()),
        to: shakmaty::Square::new(to.into()),
        promotion: promotion.and_then(shakmaty::Role::from_char),
    };
    uci.to_move(position).ok()
}

/// Calls `shakmaty::san::San::from_move` and writes the notation out. The
/// contract names the text.
#[verifier::external_body]
fn san_text(position: &Chess, m: &LegalMove) -> (s: String)
    ensures
        s@ == san_of(*position, *m),
{
    San::from_move(position, m).to_string()
}

/// The score as the side to move sees it.
pub fn side_relative(cp: i32, turn: Color) -> (r: i64)
    ensures
        r == relative(cp, turn),
{
    match turn {
        Color::White => cp as i64,
        Color::Black => -(cp as i64),
    }
}

/// The lower-case letter of a role.
pub fn role_char(role: Role) -> (c: char)
    ensures
        c == role_letter(role),
{
    match role {
        Role::Pawn => 'p',
        Role::Knight => 'n',
        Role::Bishop => 'b',
        Role::Rook => 'r',
        Role::Queen => 'q',
        Role::King => 'k',
    }
}

impl Move {
    /// Puts a move of a training row together from its notation, the
    /// engine's score and the side to move.
    pub fn assemble(san: String, cp: i32, turn: Color) -> (m: Move)
        ensures
            m@ == (MoveView { move_: san@, evaluation: relative(cp, turn) }),
    {
        Move { move_: san, evaluation: side_relative(cp, turn) }
    }

    /// Turns a variation into a move of a training row for the position
    /// that the board string gives.
    pub fn from_variation(eval_and_move: &RawVariation, fen: &str) -> (r: Result<Move, MoveError>)
        ensures
            match variation_move(*eval_and_move, fen@) {
                Ok(view) => r matches Ok(m) && m@ == view,
                Err(e) => r matches Err(x) && x == e,
            },
    {
        let parsed = match read_fen(fen) {
            Some(f) => f,
            None => {
                return Err(MoveError::Position);
            },
        };
        let position = match set_up(&parsed) {
            Some(p) => p,
            None => {
                return Err(MoveError::Position);
            },
        };
        let b = match eval_and_move.uci_move {
            Some(b) => b,
            None => {
                return Err(MoveError::IllegalMove);
            },
        };
        if !(b.from.file < 8 && b.from.rank < 8 && b.to.file < 8 && b.to.rank < 8) {
            return Err(MoveError::IllegalMove);
        }
        let promotion = match b.promotion {
            Some(role) => Some(role_char(role)),
            None => None,
        };
        match find_move(&position, b.from.index(), b.to.index(), promotion) {
            None => Err(MoveError::IllegalMove),
            Some(m) => {
                let san = san_text(&position, &m);
                Ok(Move::assemble(san, eval_and_move.cp, side_to_move(&position)))
            },
        }
    }
}

/// Tests whether a result can serve as a training row.
pub fn keep_for_training(result: &EvaluationResult) -> (keep: bool)
    ensures
        keep == usable(result@),
{
    let mut i: usize = 0;
    while i < result.slots.len()
        invariant
            i <= result.slots.len(),
            forall|k: int|
                0 <= k < i ==> (#[trigger] result@[k] matches Some(v) ==> !v.evaluated_as_mate
                    && -CUTOFF <= v.cp <= CUTOFF),
        decreases result.slots.len() - i,
    {
        match result.slots[i] {
            Some(v) => {
                if v.evaluated_as_mate || v.cp > CUTOFF || v.cp < -CUTOFF {
                    assert(result@[i as int] == Some(v));
                    return false;
                }
            },
            None => {},
        }
        i += 1;
    }
    true
}

/// The move of a slot of the result, where there is such a slot and it is
/// filled.
fn move_at(result: &EvaluationResult, i: usize, fen: &str) -> (r: Result<Option<Move>, MoveError>)
    ensures
        match optional_move(slot_at(result@, i as int), fen@) {
            Ok(None) => r matches Ok(None),
            Ok(Some(view)) => r matches Ok(Some(m)) && m@ == view,
            Err(e) => r matches Err(x) && x == e,
        },
{
    if i >= result.slots.len() {
        return Ok(None);
    }
    match result.slots[i] {
        None => Ok(None),
        Some(v) => match Move::from_variation(&v, fen) {
            Ok(m) => Ok(Some(m)),
            Err(e) => Err(e),
        },
    }
}

/// Turns the result of a position into the candidate moves of its training
/// row, or into none where the position is to be skipped.
pub fn convert_variations(fen: &str, eval_and_moves: &EvaluationResult) -> (r: Result<
    Option<Moves>,
    MoveError,
>)
    ensures
        match converted(fen@, eval_and_moves@) {
            Ok(None) => r matches Ok(None),
            Ok(Some(view)) => r matches Ok(Some(m)) && m@ == view,
            Err(e) => r matches Err(x) && x == e,
        },
{
    if !keep_for_training(eval_and_moves) {
        return Ok(None);
    }
    let one = match move_at(eval_and_moves, 0, fen) {
        Ok(Some(m)) => m,
        Ok(None) => {
            return Ok(None);
        },
        Err(e) => {
            return Err(e);
        },
    };
    let two = match move_at(eval_and_moves, 1, fen) {
        Ok(m) => m,
        Err(e) => {
            return Err(e);
        },
    };
    let three = match move_at(eval_and_moves, 2, fen) {
        Ok(m) => m,
        Err(e) => {
            return Err(e);
        },
    };
    Ok(Some(Moves { one, two, three }))
}

/// The sign convention: a score is kept for White to move and negated for
/// Black to move, so that negating the engine's score or changing the side
/// to move each flips the sign of the evaluation.
pub proof fn sign_convention(cp: i32)
    ensures
        relative(cp, Color::White) == cp,
        relative(cp, Color::Black) == -cp,
        relative(cp, Color::Black) == -relative(cp, Color::White),
{
}

} // verus!
