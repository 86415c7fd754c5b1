//! One ranked variation as the engine last reported it.

use vstd::prelude::*;
use crate::notation::{convert_move, convertible, move_of, BoardMove, EngineError};
use crate::protocol::InfoUpdate;

verus! {

/// The engine's judgement of one candidate move.
#[derive(Clone, Copy, PartialEq, Eq, Structural, Debug)]
pub struct RawVariation {
    /// The engine sees a forced mate; `cp` then carries no score.
    pub evaluated_as_mate: bool,
    /// The rank of the variation, counted from one.
    pub variation_number: u16,
    /// The score in centipawns, as the engine gave it.
    pub cp: i32,
    /// The first move of the variation; none where a mate was reported.
    pub uci_move: Option<BoardMove>,
}

impl RawVariation {
    /// A mate carries neither score nor move; a score comes with a move on
    /// the board.
    pub open spec fn wf(self) -> bool {
        if self.evaluated_as_mate {
            self.cp == 0 && self.uci_move is None
        } else {
            self.uci_move matches Some(m) && m.wf()
        }
    }

    /// The score, which exists only where no mate was reported.
    pub open spec fn spec_centipawns(self) -> Option<i32> {
        if self.evaluated_as_mate {
            None
        } else {
            Some(self.cp)
        }
    }

    /// The score, which exists only where no mate was reported.
    pub fn centipawns(&self) -> (cp: Option<i32>)
        ensures
            cp == self.spec_centipawns(),
    {
        if self.evaluated_as_mate {
            None
        } else {
            Some(self.cp)
        }
    }
}

/// An update is an evaluation: it names its rank, and carries either a mate
/// distance or a score together with a first move that lies on the board.
pub open spec fn well_formed(u: InfoUpdate) -> bool {
    u.variation_index is Some && (u.mate is Some || (u.centipawns is Some && (
    u.first_move matches Some(m) && convertible(m))))
}

/// The variation that a well-formed update reports.
pub open spec fn eval_of(u: InfoUpdate) -> RawVariation {
    if u.mate is Some {
        RawVariation {
            evaluated_as_mate: true,
            variation_number: u.variation_index->0,
            cp: 0,
            uci_move: None,
        }
    } else {
        RawVariation {
            evaluated_as_mate: false,
            variation_number: u.variation_index->0,
            cp: u.centipawns->0,
            uci_move: Some(move_of(u.first_move->0)),
        }
    }
}

/// Reads the evaluation out of an update. A mate distance wins over a score
/// on the same line; an update that is no evaluation is malformed.
pub fn attributes_to_eval(u: &InfoUpdate) -> (r: Result<RawVariation, EngineError>)
    ensures
        well_formed(*u) ==> r == Ok::<RawVariation, EngineError>(eval_of(*u)),
        !well_formed(*u) ==> r == Err::<RawVariation, EngineError>(EngineError::MalformedEvent),
        r matches Ok(v) ==> v.wf() && (v.evaluated_as_mate <==> u.mate is Some) && (u.mate is Some
            ==> v.spec_centipawns() is None),
{
    let variation_number = match u.variation_index {
        Some(n) => n,
        None => {
            return Err(EngineError::MalformedEvent);
        },
    };
    if u.mate.is_some() {
        return Ok(
            RawVariation { evaluated_as_mate: true, variation_number, cp: 0, uci_move: None },
        );
    }
    match (u.centipawns, u.first_move) {
        (Some(cp), Some(m)) => match convert_move(&m) {
            Ok(b) => Ok(
                RawVariation {
                    evaluated_as_mate: false,
                    variation_number,
                    cp,
                    uci_move: Some(b),
                },
            ),
            Err(e) => Err(e),
        },
        _ => Err(EngineError::MalformedEvent),
    }
}

/// A reported mate is never read as a score: whatever else the line carried,
/// a well-formed update with a mate distance yields a variation that is
/// flagged as mate and has no centipawn value.
pub proof fn mate_is_never_a_score(u: InfoUpdate)
    requires
        well_formed(u),
        u.mate is Some,
    ensures
        eval_of(u).evaluated_as_mate,
        eval_of(u).spec_centipawns() is None,
{
}

} // verus!
