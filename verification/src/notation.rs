//! Board coordinates, and the conversion of moves from the engine's own
//! notation into them.

use vstd::prelude::*;

verus! {

/// The failures that the engine conversation can end in.
#[derive(Clone, Copy, PartialEq, Eq, Structural, Debug)]
pub enum EngineError {
    /// The engine's output ended before the search was reported complete.
    EngineStreamClosed,
    /// A line decoded into an event that is inconsistent in itself.
    MalformedEvent,
}

/// A square as the engine wrote it: a file letter and a rank number.
#[derive(Clone, Copy, PartialEq, Eq, Structural, Debug)]
pub struct WireSquare {
    pub file: char,
    pub rank: u8,
}

/// A move as the engine wrote it.
#[derive(Clone, Copy, PartialEq, Eq, Structural, Debug)]
pub struct WireMove {
    pub from: WireSquare,
    pub to: WireSquare,
    /// The promotion letter, `'p'` where the engine named a piece without one.
    pub promotion: Option<char>,
}

/// A square of the board: file and rank, each counted from zero.
#[derive(Clone, Copy, PartialEq, Eq, Structural, Debug)]
pub struct Square {
    pub file: u8,
    pub rank: u8,
}

/// The kind of a piece.
#[derive(Clone, Copy, PartialEq, Eq, Structural, Debug)]
pub enum Role {
    Pawn,
    Knight,
    Bishop,
    Rook,
    Queen,
    King,
}

/// A move between two squares of the board, with the piece a pawn promotes to.
#[derive(Clone, Copy, PartialEq, Eq, Structural, Debug)]
pub struct BoardMove {
    pub from: Square,
    pub to: Square,
    pub promotion: Option<Role>,
}

impl Square {
    /// Both coordinates lie on the board.
    pub open spec fn wf(self) -> bool {
        self.file < 8 && self.rank < 8
    }

    /// The square's number, counted rank by rank from a1.
    pub open spec fn spec_index(self) -> int {
        self.rank * 8 + self.file
    }

    /// The square's number, counted rank by rank from a1.
    pub fn index(&self) -> (i: u8)
        requires
            self.wf(),
        ensures
            i == self.spec_index(),
            i < 64,
    {
        self.rank * 8 + self.file
    }
}

impl BoardMove {
    /// Both squares lie on the board.
    pub open spec fn wf(self) -> bool {
        self.from.wf() && self.to.wf()
    }
}

/// The file letter is one of `a` to `h` and the rank one of 1 to 8.
pub open spec fn on_board(sq: WireSquare) -> bool {
    97 <= sq.file as u32 <= 104 && 1 <= sq.rank <= 8
}

/// The board square that a square in engine notation names.
pub open spec fn square_of(sq: WireSquare) -> Square {
    Square { file: (sq.file as u32 - 97) as u8, rank: (sq.rank - 1) as u8 }
}

/// The role that a piece letter names, in either case.
pub open spec fn role_of(letter: char) -> Option<Role> {
    if letter == 'P' || letter == 'p' {
        Some(Role::Pawn)
    } else if letter == 'N' || letter == 'n' {
        Some(Role::Knight)
    } else if letter == 'B' || letter == 'b' {
        Some(Role::Bishop)
    } else if letter == 'R' || letter == 'r' {
        Some(Role::Rook)
    } else if letter == 'Q' || letter == 'q' {
        Some(Role::Queen)
    } else if letter == 'K' || letter == 'k' {
        Some(Role::King)
    } else {
        None
    }
}

/// A move in engine notation can be placed on the board: both squares are on
/// it and the promotion letter, if any, names a role.
pub open spec fn convertible(m: WireMove) -> bool {
    on_board(m.from) && on_board(m.to) && (m.promotion matches Some(letter) ==> role_of(
        letter,
    ) is Some)
}

/// The board move that a convertible move in engine notation names.
pub open spec fn move_of(m: WireMove) -> BoardMove {
    BoardMove {
        from: square_of(m.from),
        to: square_of(m.to),
        promotion: match m.promotion {
            Some(letter) => role_of(letter),
            None => None,
        },
    }
}

/// Decodes a square from engine notation.
pub fn convert_square(sq: &WireSquare) -> (r: Result<Square, EngineError>)
    ensures
        on_board(*sq) ==> r == Ok::<Square, EngineError>(square_of(*sq)),
        !on_board(*sq) ==> r == Err::<Square, EngineError>(EngineError::MalformedEvent),
        r matches Ok(s) ==> s.wf(),
{
    let code: u32 = sq.file as u32;
    if 97 <= code && code <= 104 && 1 <= sq.rank && sq.rank <= 8 {
        Ok(Square { file: (code - 97) as u8, rank: sq.rank - 1 })
    } else {
        Err(EngineError::MalformedEvent)
    }
}

/// Reads a piece letter, in either case.
pub fn role_from_char(letter: char) -> (r: Option<Role>)
    ensures
        r == role_of(letter),
{
    if letter == 'P' || letter == 'p' {
        Some(Role::Pawn)
    } else if letter == 'N' || letter == 'n' {
        Some(Role::Knight)
    } else if letter == 'B' || letter == 'b' {
        Some(Role::Bishop)
    } else if letter == 'R' || letter == 'r' {
        Some(Role::Rook)
    } else if letter == 'Q' || letter == 'q' {
        Some(Role::Queen)
    } else if letter == 'K' || letter == 'k' {
        Some(Role::King)
    } else {
        None
    }
}

/// Converts a move from engine notation into board coordinates.
pub fn convert_move(m: &WireMove) -> (r: Result<BoardMove, EngineError>)
    ensures
        convertible(*m) ==> r == Ok::<BoardMove, EngineError>(move_of(*m)),
        !convertible(*m) ==> r == Err::<BoardMove, EngineError>(EngineError::MalformedEvent),
        r matches Ok(b) ==> b.wf(),
{
    let from = match convert_square(&m.from) {
        Ok(s) => s,
        Err(e) => {
            return Err(e);
        },
    };
    let to = match convert_square(&m.to) {
        Ok(s) => s,
        Err(e) => {
            return Err(e);
        },
    };
    match m.promotion {
        None => Ok(BoardMove { from, to, promotion: None }),
        Some(letter) => match role_from_char(letter) {
            Some(role) => Ok(BoardMove { from, to, promotion: Some(role) }),
            None => Err(EngineError::MalformedEvent),
        },
    }
}

} // verus!
