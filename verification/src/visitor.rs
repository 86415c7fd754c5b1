//! Following a game record move by move.
//!
//! The visitor keeps the positions of the game so far and the names of its
//! players. `shakmaty` plays the moves; the first one that cannot be played
//! ends the game for the visitor.

use vstd::prelude::*;
use shakmaty::san::SanPlus;
use shakmaty::Move as LegalMove;
use shakmaty::{Chess, Position};
use crate::question::Players;

verus! {

#[verifier::external_type_specification]
#[verifier::external_body]
pub struct ExSanPlus(SanPlus);

/// Why a move of a record could not be played.
#[derive(Clone, Copy, PartialEq, Eq, Structural, Debug)]
pub enum PlayFailure {
    /// The notation names no legal move of the position.
    San,
    /// The move could not be played in the position.
    Play,
}

/// The legal move that `shakmaty`'s `San::to_move` finds in a position for a
/// move in standard notation; none where the notation names none.
pub uninterp spec fn move_named(position: Chess, san: SanPlus) -> Option<LegalMove>;

/// The position that `shakmaty`'s `Position::play` reaches from a position
/// by a move; none where it refuses the move.
pub uninterp spec fn after_move(position: Chess, m: LegalMove) -> Option<Chess>;

/// The position after a move in standard notation: the move is found in
/// the position and then played.
pub open spec fn played(position: Chess, san: SanPlus) -> Result<Chess, PlayFailure> {
    match move_named(position, san) {
        None => Err(PlayFailure::San),
        Some(m) => match after_move(position, m) {
            Some(next) => Ok(next),
            None => Err(PlayFailure::Play),
        },
    }
}

/// The key of the header that names White.
pub open spec fn white_key() -> Seq<u8> {
    seq![87u8, 104u8, 105u8, 116u8, 101u8]
}

/// The key of the header that names Black.
pub open spec fn black_key() -> Seq<u8> {
    seq![66u8, 108u8, 97u8, 99u8, 107u8]
}

/// Calls `shakmaty`'s `Chess::default`, the position before the first move.
/// Nothing is promised of it.
#[verifier::external_body]
fn starting_position() -> Chess {
    Chess::default()
}

/// Calls `shakmaty`'s `San::to_move`. The contract names the result; a
/// notation that names no legal move becomes `None`.
#[verifier::external_body]
fn read_san(position: &Chess, san: &SanPlus) -> (r: Option<LegalMove>)
    ensures
        r == move_named(*position, *san),
{
    san.san.to_move(position).ok()
}

/// Calls `shakmaty`'s `Position::play` on a copy of the position. The
/// contract names the result; a move that is refused becomes `None`.
#[verifier::external_body]
fn play_move(position: &Chess, m: &LegalMove) -> (r: Option<Chess>)
    ensures
        r == after_move(*position, *m),
{
    position.clone().play(m).ok()
}

/// Plays a move in standard notation on a position.
fn play_san(position: &Chess, san: &SanPlus) -> (r: Result<Chess, PlayFailure>)
    ensures
        r == played(*position, *san),
{
    match read_san(position, san) {
        None => Err(PlayFailure::San),
        Some(m) => match play_move(position, &m) {
            Some(next) => Ok(next),
            None => Err(PlayFailure::Play),
        },
    }
}

/// Tests whether a key is the given five bytes.
fn key_is(key: &[u8], a: u8, b: u8, c: u8, d: u8, e: u8) -> (same: bool)
    ensures
        same == (key@ == seq![a, b, c, d, e]),
{
    if key.len() != 5 {
        assert(seq![a, b, c, d, e].len() == 5);
        return false;
    }
    let same = key[0] == a && key[1] == b && key[2] == c && key[3] == d && key[4] == e;
    if same {
        assert(key@ =~= seq![a, b, c, d, e]);
    } else {
        let ghost want = seq![a, b, c, d, e];
        assert(want[0] == a && want[1] == b && want[2] == c && want[3] == d && want[4] == e);
    }
    same
}

/// The players as contracts see them.
pub struct PlayersView {
    pub white: Seq<char>,
    pub black: Seq<char>,
}

/// The names of the players as sequences.
pub open spec fn names_of(players: Players) -> PlayersView {
    PlayersView { white: players.white@, black: players.black@ }
}

/// The players after one header: the headers `White` and `Black` name them,
/// and any other header changes nothing.
pub open spec fn with_header(players: PlayersView, key: Seq<u8>, value: Seq<char>) -> PlayersView {
    if key == white_key() {
        PlayersView { white: value, ..players }
    } else if key == black_key() {
        PlayersView { black: value, ..players }
    } else {
        players
    }
}

/// A visitor as contracts see it.
pub struct VisitorView {
    pub positions: Seq<Chess>,
    pub players: PlayersView,
    pub failure: Option<PlayFailure>,
}

/// The visitor after one move of the record. After a failure nothing
/// changes. Otherwise the move is played on the last position: the new
/// position is appended, or the failure is kept.
pub open spec fn after_san(v: VisitorView, san: SanPlus) -> VisitorView {
    if v.failure is Some {
        v
    } else {
        match played(v.positions.last(), san) {
            Ok(next) => VisitorView { positions: v.positions.push(next), ..v },
            Err(f) => VisitorView { failure: Some(f), ..v },
        }
    }
}

/// Collects the positions and the players of one game.
pub struct PositionsVisitor {
    positions: Vec<Chess>,
    players: Players,
    failure: Option<PlayFailure>,
}

impl View for PositionsVisitor {
    type V = VisitorView;

    closed spec fn view(&self) -> VisitorView {
        VisitorView {
            positions: self.positions@,
            players: names_of(self.players),
            failure: self.failure,
        }
    }
}

impl PositionsVisitor {
    /// The visitor holds at least the position before the first move.
    pub open spec fn wf(&self) -> bool {
        self@.positions.len() >= 1
    }

    /// A visitor at the start of a game, with players yet unnamed.
    pub fn new() -> (v: PositionsVisitor)
        ensures
            v.wf(),
            v@.positions.len() == 1,
            v@.players == (PlayersView { white: Seq::empty(), black: Seq::empty() }),
            v@.failure is None,
    {
        let mut positions: Vec<Chess> = Vec::new();
        positions.push(starting_position());
        PositionsVisitor { positions, players: Players::default(), failure: None }
    }

    /// Takes in one header of the record.
    pub fn header(&mut self, key: &[u8], value: String)
        ensures
            final(self)@ == (VisitorView {
                players: with_header(old(self)@.players, key@, value@),
                ..old(self)@
            }),
    {
        if key_is(key, 87, 104, 105, 116, 101) {
            self.players.white = value;
        } else if key_is(key, 66, 108, 97, 99, 107) {
            self.players.black = value;
        }
    }

    /// The last position reached.
    pub fn last_position(&self) -> (p: &Chess)
        requires
            self.wf(),
        ensures
            *p == self@.positions.last(),
    {
        &self.positions[self.positions.len() - 1]
    }

    /// The failure that ended the game for the visitor, if one did.
    pub fn failure(&self) -> (f: Option<PlayFailure>)
        ensures
            f == self@.failure,
    {
        self.failure
    }

    /// Takes in one move of the record.
    pub fn san(&mut self, san: &SanPlus)
        requires
            old(self).wf(),
        ensures
            final(self).wf(),
            final(self)@ == after_san(old(self)@, *san),
    {
        if self.failure.is_some() {
            return ;
        }
        match play_san(self.last_position(), san) {
            Ok(next) => {
                self.positions.push(next);
            },
            Err(f) => {
                self.failure = Some(f);
            },
        }
    }

    /// Ends the game: the positions from the first to the last and the
    /// players, or the failure that a move ran into.
    pub fn end_game(self) -> (r: Result<(Vec<Chess>, Players), PlayFailure>)
        ensures
            match self@.failure {
                Some(f) => r == Err::<(Vec<Chess>, Players), PlayFailure>(f),
                None => r matches Ok(game) && game.0@ == self@.positions && names_of(game.1)
                    == self@.players,
            },
    {
        match self.failure {
            Some(f) => Err(f),
            None => Ok((self.positions, self.players)),
        }
    }
}

} // verus!
