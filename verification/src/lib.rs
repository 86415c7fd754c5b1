//! Driving a chess engine over its line protocol: the message codec, the
//! per-request aggregation of ranked variations, the session and batch state
//! machines, and the rules that turn raw engine output into training rows.

pub mod aggregator;
pub mod codec;
pub mod notation;
pub mod pipeline;
pub mod protocol;
pub mod question;
pub mod sampling;
pub mod stockfish;
pub mod variation;
pub mod visitor;
