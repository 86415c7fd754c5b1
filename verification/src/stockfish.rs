//! The engine session: one conversation at a time with one engine.
//!
//! The session decides what is sent and what each line of the engine means
//! for the request in flight. Whoever owns the engine's streams writes what
//! the session hands out and gives it each line read, or the end of the
//! stream.

use vstd::prelude::*;
use vstd::string::*;
use crate::aggregator::{absorb, empty_slots, Aggregator, EvaluationResult, Slots};
use crate::codec::{decimal, decimal_string, decode, decoded};
use crate::notation::{EngineError, WireMove};
use crate::protocol::{CommandView, ProtocolCommand, ProtocolEvent};

verus! {

/// What a session is set up with, once and for its lifetime.
#[derive(Clone, Copy, PartialEq, Eq, Structural, Debug)]
pub struct SessionConfig {
    /// The depth that every search runs to.
    pub depth: u8,
    /// The number of ranked variations asked of the engine.
    pub variations: u16,
    /// The number of threads the engine may use.
    pub threads: u32,
    /// The size of the engine's hash table, in megabytes.
    pub hash_size: u32,
}

/// Where a session stands.
#[derive(Clone, Copy, PartialEq, Eq, Structural, Debug)]
pub enum Phase {
    /// No request is in flight.
    Idle,
    /// A request was sent and its completion has not been seen.
    Searching,
    /// The conversation is over.
    Closed,
}

/// What a line, or the end of the stream, meant for the request in flight.
#[derive(Clone, PartialEq, Eq, Debug)]
pub enum Reply {
    /// The request is not complete: read on.
    Pending,
    /// The request is complete, with this result.
    Finished(EvaluationResult),
    /// The session has failed.
    Failed(EngineError),
}

/// A reply with its result as a sequence.
pub enum ReplyView {
    Pending,
    Finished(Slots),
    Failed(EngineError),
}

impl View for Reply {
    type V = ReplyView;

    open spec fn view(&self) -> ReplyView {
        match *self {
            Reply::Pending => ReplyView::Pending,
            Reply::Finished(r) => ReplyView::Finished(r@),
            Reply::Failed(e) => ReplyView::Failed(e),
        }
    }
}

/// A session as contracts see it.
pub struct SessionView {
    pub config: SessionConfig,
    pub phase: Phase,
    pub slots: Slots,
}

impl SessionView {
    /// There is one slot per variation asked for, and none is filled while
    /// no request is in flight.
    pub open spec fn wf(self) -> bool {
        &&& self.slots.len() == self.config.variations
        &&& self.phase is Idle ==> self.slots == empty_slots(self.config.variations as nat)
    }
}

/// The configuration of a session that is given its depth alone.
pub open spec fn default_config(depth: u8) -> SessionConfig {
    SessionConfig { depth, variations: 3, threads: 8, hash_size: 1024 }
}

/// The commands that open a session: the handshake, then the options in the
/// order threads, hash size, number of variations.
pub open spec fn setup_script(config: SessionConfig) -> Seq<CommandView> {
    seq![
        CommandView::HandshakeInit,
        CommandView::SetOption { name: "Threads"@, value: decimal(config.threads as nat) },
        CommandView::SetOption { name: "Hash"@, value: decimal(config.hash_size as nat) },
        CommandView::SetOption { name: "MultiPV"@, value: decimal(config.variations as nat) },
    ]
}

/// The commands that ask for one evaluation: the position, then a search to
/// the session's depth.
pub open spec fn request_script(config: SessionConfig, fen: Seq<char>) -> Seq<CommandView> {
    seq![CommandView::SetPosition { fen }, CommandView::StartSearch { depth: config.depth }]
}

/// The views of a list of commands.
pub open spec fn script_of(commands: Seq<ProtocolCommand>) -> Seq<CommandView> {
    Seq::new(commands.len(), |i: int| commands[i]@)
}

/// The session and its reply after one input: an event, or the end of the
/// engine's output.
///
/// While a search is in flight an update is folded into its slot, completion
/// ends the request with the slots as they stand, and the end of the stream
/// ends the session without a result. Outside a search events are passed
/// over, and the end of the stream ends the session. A closed session
/// answers every input with the failure.
pub open spec fn step(s: SessionView, input: Option<ProtocolEvent>) -> (SessionView, ReplyView) {
    match s.phase {
        Phase::Closed => (s, ReplyView::Failed(EngineError::EngineStreamClosed)),
        Phase::Idle => match input {
            None => (
                SessionView { phase: Phase::Closed, ..s },
                ReplyView::Failed(EngineError::EngineStreamClosed),
            ),
            Some(_) => (s, ReplyView::Pending),
        },
        Phase::Searching => match input {
            None => (
                SessionView { phase: Phase::Closed, ..s },
                ReplyView::Failed(EngineError::EngineStreamClosed),
            ),
            Some(event) => if event is SearchComplete {
                (
                    SessionView {
                        phase: Phase::Idle,
                        slots: empty_slots(s.config.variations as nat),
                        ..s
                    },
                    ReplyView::Finished(s.slots),
                )
            } else {
                (SessionView { slots: absorb(s.slots, event), ..s }, ReplyView::Pending)
            },
        },
    }
}

/// The input that a line read from the engine is: its event, or the end of
/// the output where no line was read. An empty line is not decoded; it is
/// passed over as a line that says nothing.
pub open spec fn input_of(line: Option<&str>) -> Option<ProtocolEvent> {
    match line {
        Some(text) => if text@.len() == 0 {
            Some(ProtocolEvent::Unrecognized)
        } else {
            Some(decoded(text@))
        },
        None => None,
    }
}

/// Turns what was read from the engine into the session's input.
pub fn read_input(line: Option<&str>) -> (input: Option<ProtocolEvent>)
    ensures
        input == input_of(line),
{
    match line {
        Some(text) => if text.unicode_len() == 0 {
            Some(ProtocolEvent::Unrecognized)
        } else {
            Some(decode(text))
        },
        None => None,
    }
}

/// A session with a chess engine.
pub struct Stockfish {
    config: SessionConfig,
    phase: Phase,
    aggregator: Aggregator,
}

impl View for Stockfish {
    type V = SessionView;

    closed spec fn view(&self) -> SessionView {
        SessionView { config: self.config, phase: self.phase, slots: self.aggregator@ }
    }
}

impl Stockfish {
    /// A session that searches to `depth`, for three variations, on eight
    /// threads and with a hash table of 1024 megabytes.
    pub fn new(depth: u8) -> (s: Stockfish)
        ensures
            s@.wf(),
            s@.config == default_config(depth),
            s@.phase is Idle,
    {
        Stockfish::with_config(
            SessionConfig { depth, variations: 3, threads: 8, hash_size: 1024 },
        )
    }

    /// A session with the given configuration.
    pub fn with_config(config: SessionConfig) -> (s: Stockfish)
        ensures
            s@.wf(),
            s@.config == config,
            s@.phase is Idle,
    {
        Stockfish {
            config,
            phase: Phase::Idle,
            aggregator: Aggregator::new(config.variations as usize),
        }
    }

    /// The session's configuration.
    pub fn config(&self) -> (c: SessionConfig)
        ensures
            c == self@.config,
    {
        self.config
    }

    /// Where the session stands.
    pub fn phase(&self) -> (p: Phase)
        ensures
            p == self@.phase,
    {
        self.phase
    }

    /// The commands to send once, when the engine has been started.
    pub fn setup_messages(&self) -> (commands: Vec<ProtocolCommand>)
        ensures
            script_of(commands@) == setup_script(self@.config),
    {
        let mut commands: Vec<ProtocolCommand> = Vec::new();
        commands.push(ProtocolCommand::HandshakeInit);
        commands.push(
            ProtocolCommand::SetOption {
                name: String::from_str("Threads"),
                value: decimal_string(self.config.threads),
            },
        );
        commands.push(
            ProtocolCommand::SetOption {
                name: String::from_str("Hash"),
                value: decimal_string(self.config.hash_size),
            },
        );
        commands.push(
            ProtocolCommand::SetOption {
                name: String::from_str("MultiPV"),
                value: decimal_string(self.config.variations as u32),
            },
        );
        assert(script_of(commands@) =~= setup_script(self@.config));
        commands
    }

    /// Begins the evaluation of a position: the session goes into its
    /// search, and the commands returned are to be sent and flushed before
    /// the first line is read.
    pub fn calculate(&mut self, position: &str) -> (commands: Vec<ProtocolCommand>)
        requires
            old(self)@.wf(),
            old(self)@.phase is Idle,
        ensures
            final(self)@ == (SessionView { phase: Phase::Searching, ..old(self)@ }),
            final(self)@.wf(),
            script_of(commands@) == request_script(old(self)@.config, position@),
    {
        let mut commands: Vec<ProtocolCommand> = Vec::new();
        commands.push(ProtocolCommand::SetPosition { fen: String::from_str(position) });
        commands.push(ProtocolCommand::StartSearch { depth: self.config.depth });
        self.phase = Phase::Searching;
        assert(script_of(commands@) =~= request_script(old(self)@.config, position@));
        commands
    }

    /// Takes in one event of the engine, or the end of its output.
    pub fn advance(&mut self, input: Option<ProtocolEvent>) -> (reply: Reply)
        requires
            old(self)@.wf(),
        ensures
            final(self)@.wf(),
            (final(self)@, reply@) == step(old(self)@, input),
    {
        match self.phase {
            Phase::Closed => Reply::Failed(EngineError::EngineStreamClosed),
            Phase::Idle => match input {
                None => {
                    self.phase = Phase::Closed;
                    Reply::Failed(EngineError::EngineStreamClosed)
                },
                Some(_) => Reply::Pending,
            },
            Phase::Searching => match input {
                None => {
                    self.phase = Phase::Closed;
                    Reply::Failed(EngineError::EngineStreamClosed)
                },
                Some(event) => match self.aggregator.feed(&event) {
                    Some(result) => {
                        self.phase = Phase::Idle;
                        Reply::Finished(result)
                    },
                    None => Reply::Pending,
                },
            },
        }
    }

    /// Takes in one line read from the engine, or the end of its output.
    pub fn receive(&mut self, line: Option<&str>) -> (reply: Reply)
        requires
            old(self)@.wf(),
        ensures
            final(self)@.wf(),
            (final(self)@, reply@) == step(old(self)@, input_of(line)),
    {
        self.advance(read_input(line))
    }

    /// Ends the session: the command returned tells the engine to quit.
    pub fn shutdown(&mut self) -> (command: ProtocolCommand)
        ensures
            command@ == CommandView::Quit,
            final(self)@ == (SessionView { phase: Phase::Closed, ..old(self)@ }),
    {
        self.phase = Phase::Closed;
        ProtocolCommand::Quit
    }
}

/// A response without a single update is a result, not a failure: when the
/// completion is the first thing that follows a request, the reply is
/// finished with every slot empty, and the session is ready for the next
/// request.
pub proof fn empty_response_is_a_result(s: SessionView, best_move: WireMove)
    requires
        s.wf(),
        s.phase is Idle,
    ensures
        step(
            SessionView { phase: Phase::Searching, ..s },
            Some(ProtocolEvent::SearchComplete { best_move }),
        ) == (s, ReplyView::Finished(empty_slots(s.config.variations as nat))),
{
}

/// A stream that ends in the middle of a response fails the session: the
/// reply is the failure, never a result, and every later input is answered
/// with the failure too.
pub proof fn closed_stream_yields_no_result(s: SessionView, later: Option<ProtocolEvent>)
    requires
        s.phase is Searching,
    ensures
        step(s, None).1 == ReplyView::Failed(EngineError::EngineStreamClosed),
        step(step(s, None).0, later).1 == ReplyView::Failed(EngineError::EngineStreamClosed),
{
}

} // verus!
