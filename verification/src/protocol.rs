//! The structured commands and events of the engine protocol.

use vstd::prelude::*;
use crate::notation::WireMove;

verus! {

/// The attributes of one `info` line that the evaluation reads. Each is
/// optional: an engine fills in what it knows.
#[derive(Clone, Copy, PartialEq, Eq, Structural, Debug)]
pub struct InfoUpdate {
    /// The rank of the variation that the line speaks of, counted from one.
    pub variation_index: Option<u16>,
    /// The score in centipawns.
    pub centipawns: Option<i32>,
    /// The distance to mate, where the engine found one.
    pub mate: Option<i8>,
    /// The first move of the principal variation.
    pub first_move: Option<WireMove>,
}

/// A line that the engine sent, decoded.
#[derive(Clone, Copy, PartialEq, Eq, Structural, Debug)]
pub enum ProtocolEvent {
    /// The engine acknowledged the handshake.
    HandshakeAck,
    /// An intermediate result of the search in flight.
    InfoUpdate(InfoUpdate),
    /// The search in flight is over.
    SearchComplete { best_move: WireMove },
    /// Any other line.
    Unrecognized,
}

/// An instruction for the engine.
#[derive(Clone, PartialEq, Eq, Debug)]
pub enum ProtocolCommand {
    HandshakeInit,
    SetOption { name: String, value: String },
    SetPosition { fen: String },
    StartSearch { depth: u8 },
    Quit,
}

/// A command with its texts as sequences of characters.
pub enum CommandView {
    HandshakeInit,
    SetOption { name: Seq<char>, value: Seq<char> },
    SetPosition { fen: Seq<char> },
    StartSearch { depth: u8 },
    Quit,
}

impl View for ProtocolCommand {
    type V = CommandView;

    open spec fn view(&self) -> CommandView {
        match *self {
            ProtocolCommand::HandshakeInit => CommandView::HandshakeInit,
            ProtocolCommand::SetOption { name, value } => CommandView::SetOption {
                name: name@,
                value: value@,
            },
            ProtocolCommand::SetPosition { fen } => CommandView::SetPosition { fen: fen@ },
            ProtocolCommand::StartSearch { depth } => CommandView::StartSearch { depth },
            ProtocolCommand::Quit => CommandView::Quit,
        }
    }
}

impl InfoUpdate {
    /// An update that carries nothing.
    pub open spec fn spec_empty() -> InfoUpdate {
        InfoUpdate { variation_index: None, centipawns: None, mate: None, first_move: None }
    }

    /// An update that carries nothing.
    pub fn empty() -> (u: InfoUpdate)
        ensures
            u == InfoUpdate::spec_empty(),
    {
        InfoUpdate { variation_index: None, centipawns: None, mate: None, first_move: None }
    }
}

} // verus!
