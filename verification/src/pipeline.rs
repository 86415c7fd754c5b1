//! The batch driver: one session applied to many positions, one request in
//! flight at a time, results in the order of the positions.
//!
//! The driver says what to do next; whoever owns the engine's streams does
//! it and hands back each line read.

use vstd::prelude::*;
use crate::aggregator::{empty_slots, fold_events, fold_keeps_width, EvaluationResult, Slots};
use crate::notation::EngineError;
use crate::protocol::{CommandView, ProtocolCommand, ProtocolEvent};
use crate::stockfish::{
    input_of,
    read_input,
    request_script,
    script_of,
    step,
    Phase,
    Reply,
    ReplyView,
    SessionView,
    Stockfish,
};

verus! {

/// What the owner of the engine's streams is to do next.
#[derive(Clone, PartialEq, Eq, Debug)]
pub enum Action {
    /// Send these commands and flush.
    Send(Vec<ProtocolCommand>),
    /// Read one line and hand it over.
    Read,
    /// Every position has its result.
    Finish,
    /// The session failed; the rest of the batch is given up.
    Abort(EngineError),
}

/// An action with its commands as their views.
pub enum ActionView {
    Send(Seq<CommandView>),
    Read,
    Finish,
    Abort(EngineError),
}

impl View for Action {
    type V = ActionView;

    open spec fn view(&self) -> ActionView {
        match *self {
            Action::Send(commands) => ActionView::Send(script_of(commands@)),
            Action::Read => ActionView::Read,
            Action::Finish => ActionView::Finish,
            Action::Abort(e) => ActionView::Abort(e),
        }
    }
}

/// A batch as contracts see it.
pub struct BatchView {
    pub engine: SessionView,
    pub positions: Seq<Seq<char>>,
    pub results: Seq<Slots>,
    pub failure: Option<EngineError>,
}

impl BatchView {
    /// There is a result for each position that was completed and for no
    /// other, and a search is in flight only for a position that has none.
    pub open spec fn wf(self) -> bool {
        &&& self.engine.wf()
        &&& self.results.len() <= self.positions.len()
        &&& self.engine.phase is Searching ==> self.results.len() < self.positions.len()
    }

    /// The batch is between two requests and has not failed.
    pub open spec fn ready(self) -> bool {
        self.wf() && self.failure is None && self.engine.phase is Idle
    }
}

/// The texts of a list of positions.
pub open spec fn texts_of(positions: Seq<String>) -> Seq<Seq<char>> {
    Seq::new(positions.len(), |i: int| positions[i]@)
}

/// The results of a list of evaluations.
pub open spec fn slots_of(results: Seq<EvaluationResult>) -> Seq<Slots> {
    Seq::new(results.len(), |i: int| results[i]@)
}

/// The batch and the action after it was asked what to do next. A failed
/// batch aborts. During a search the next thing is to read. Between
/// requests the first position without a result is sent, and the batch is
/// finished when there is none.
pub open spec fn next(b: BatchView) -> (BatchView, ActionView) {
    match b.failure {
        Some(e) => (b, ActionView::Abort(e)),
        None => match b.engine.phase {
            Phase::Closed => (b, ActionView::Abort(EngineError::EngineStreamClosed)),
            Phase::Searching => (b, ActionView::Read),
            Phase::Idle => if b.results.len() < b.positions.len() {
                (
                    BatchView {
                        engine: SessionView { phase: Phase::Searching, ..b.engine },
                        ..b
                    },
                    ActionView::Send(
                        request_script(b.engine.config, b.positions[b.results.len() as int]),
                    ),
                )
            } else {
                (b, ActionView::Finish)
            },
        },
    }
}

/// The batch after one input from the engine: a completed request appends
/// its result, a failure is kept, anything else only moves the session.
pub open spec fn take(b: BatchView, input: Option<ProtocolEvent>) -> BatchView {
    let (engine, reply) = step(b.engine, input);
    match reply {
        ReplyView::Pending => BatchView { engine, ..b },
        ReplyView::Finished(slots) => BatchView { engine, results: b.results.push(slots), ..b },
        ReplyView::Failed(e) => BatchView { engine, failure: Some(e), ..b },
    }
}

/// The batch after a run of events, taken in order.
pub open spec fn take_all(b: BatchView, events: Seq<ProtocolEvent>) -> BatchView
    decreases events.len(),
{
    if events.len() == 0 {
        b
    } else {
        take(take_all(b, events.drop_last()), Some(events.last()))
    }
}

/// A response is whole: it ends with the completion and holds no other.
pub open spec fn whole_response(events: Seq<ProtocolEvent>) -> bool {
    &&& events.len() >= 1
    &&& events.last() is SearchComplete
    &&& forall|i: int| 0 <= i < events.len() - 1 ==> !(#[trigger] events[i] is SearchComplete)
}

/// The batch after a run of whole responses, each asked for in its turn.
pub open spec fn run(b: BatchView, responses: Seq<Seq<ProtocolEvent>>) -> BatchView
    decreases responses.len(),
{
    if responses.len() == 0 {
        b
    } else {
        take_all(next(run(b, responses.drop_last())).0, responses.last())
    }
}

/// During a search, updates only fold into the slots.
pub proof fn updates_fold(b: BatchView, updates: Seq<ProtocolEvent>)
    requires
        b.engine.phase is Searching,
        forall|i: int| 0 <= i < updates.len() ==> !(#[trigger] updates[i] is SearchComplete),
    ensures
        take_all(b, updates) == (BatchView {
            engine: SessionView { slots: fold_events(b.engine.slots, updates), ..b.engine },
            ..b
        }),
    decreases updates.len(),
{
    if updates.len() > 0 {
        updates_fold(b, updates.drop_last());
    }
}

/// One whole response, asked for between two requests, becomes the next
/// result and nothing else: the batch is ready again, with the fold of the
/// response's updates appended to its results.
pub proof fn response_becomes_next_result(b: BatchView, response: Seq<ProtocolEvent>)
    requires
        b.ready(),
        b.results.len() < b.positions.len(),
        whole_response(response),
    ensures
        next(b).1 == ActionView::Send(
            request_script(b.engine.config, b.positions[b.results.len() as int]),
        ),
        take_all(next(b).0, response) == (BatchView {
            results: b.results.push(
                fold_events(empty_slots(b.engine.config.variations as nat), response.drop_last()),
            ),
            ..b
        }),
        take_all(next(b).0, response).ready(),
{
    let begun = next(b).0;
    let updates = response.drop_last();
    updates_fold(begun, updates);
    fold_keeps_width(begun.engine.slots, updates);
    let after = take_all(begun, updates);
    assert(take_all(begun, response) == take(after, Some(response.last())));
    assert(take_all(begun, response).engine =~= b.engine);
}

/// Order preservation. After a run of whole responses on a fresh batch
/// there are as many results as responses, the request answered by the
/// `i`-th response was the one for the `i`-th position, and the `i`-th
/// result is the fold of the `i`-th response, however many lines each
/// response had.
pub proof fn order_preservation(b: BatchView, responses: Seq<Seq<ProtocolEvent>>, i: int)
    requires
        b.ready(),
        b.results.len() == 0,
        responses.len() <= b.positions.len(),
        forall|j: int| 0 <= j < responses.len() ==> whole_response(#[trigger] responses[j]),
        0 <= i < responses.len(),
    ensures
        run(b, responses).results.len() == responses.len(),
        run(b, responses).results[i] == fold_events(
            empty_slots(b.engine.config.variations as nat),
            responses[i].drop_last(),
        ),
        next(run(b, responses.take(i))).1 == ActionView::Send(
            request_script(b.engine.config, b.positions[i]),
        ),
{
    run_appends(b, responses);
    run_appends(b, responses.take(i));
}

/// The state after a run of whole responses on a fresh batch: ready, with
/// one result per response, each the fold of its own response.
proof fn run_appends(b: BatchView, responses: Seq<Seq<ProtocolEvent>>)
    requires
        b.ready(),
        b.results.len() == 0,
        responses.len() <= b.positions.len(),
        forall|j: int| 0 <= j < responses.len() ==> whole_response(#[trigger] responses[j]),
    ensures
        run(b, responses).ready(),
        run(b, responses).engine == b.engine,
        run(b, responses).positions == b.positions,
        run(b, responses).results.len() == responses.len(),
        forall|j: int|
            0 <= j < responses.len() ==> #[trigger] run(b, responses).results[j] == fold_events(
                empty_slots(b.engine.config.variations as nat),
                responses[j].drop_last(),
            ),
    decreases responses.len(),
{
    if responses.len() > 0 {
        let before = responses.drop_last();
        run_appends(b, before);
        let mid = run(b, before);
        assert(whole_response(responses.last()));
        response_becomes_next_result(mid, responses.last());
        assert forall|j: int| 0 <= j < responses.len() implies #[trigger] run(
            b,
            responses,
        ).results[j] == fold_events(
            empty_slots(b.engine.config.variations as nat),
            responses[j].drop_last(),
        ) by {
            if j < before.len() {
                assert(before[j] == responses[j]);
                assert(run(b, responses).results[j] == mid.results[j]);
            }
        }
    }
}

/// A batch of positions under evaluation.
pub struct Batch {
    engine: Stockfish,
    positions: Vec<String>,
    results: Vec<EvaluationResult>,
    failure: Option<EngineError>,
}

impl View for Batch {
    type V = BatchView;

    closed spec fn view(&self) -> BatchView {
        BatchView {
            engine: self.engine@,
            positions: texts_of(self.positions@),
            results: slots_of(self.results@),
            failure: self.failure,
        }
    }
}

impl Batch {
    /// A batch that will evaluate the positions in their order, on a session
    /// that has no request in flight.
    pub fn new(engine: Stockfish, positions: Vec<String>) -> (b: Batch)
        requires
            engine@.wf(),
            engine@.phase is Idle,
        ensures
            b@.ready(),
            b@.engine == engine@,
            b@.positions == texts_of(positions@),
            b@.results.len() == 0,
    {
        Batch { engine, positions, results: Vec::new(), failure: None }
    }

    /// Says what to do next, and begins the next request where that is it.
    pub fn next_action(&mut self) -> (action: Action)
        requires
            old(self)@.wf(),
        ensures
            final(self)@.wf(),
            (final(self)@, action@) == next(old(self)@),
    {
        match self.failure {
            Some(e) => Action::Abort(e),
            None => match self.engine.phase() {
                Phase::Closed => Action::Abort(EngineError::EngineStreamClosed),
                Phase::Searching => Action::Read,
                Phase::Idle => {
                    let done = self.results.len();
                    if done < self.positions.len() {
                        let commands = self.engine.calculate(self.positions[done].as_str());
                        Action::Send(commands)
                    } else {
                        Action::Finish
                    }
                },
            },
        }
    }

    /// Takes in one event of the engine, or the end of its output.
    pub fn on_event(&mut self, input: Option<ProtocolEvent>)
        requires
            old(self)@.wf(),
        ensures
            final(self)@.wf(),
            final(self)@ == take(old(self)@, input),
    {
        match self.engine.advance(input) {
            Reply::Pending => {},
            Reply::Finished(result) => {
                self.results.push(result);
                assert(slots_of(self.results@) =~= slots_of(old(self).results@).push(result@));
            },
            Reply::Failed(e) => {
                self.failure = Some(e);
            },
        }
    }

    /// Takes in one line read from the engine, or the end of its output.
    pub fn on_line(&mut self, line: Option<&str>)
        requires
            old(self)@.wf(),
        ensures
            final(self)@.wf(),
            final(self)@ == take(old(self)@, input_of(line)),
    {
        self.on_event(read_input(line))
    }

    /// Ends the session, whatever the batch has come to: the command
    /// returned tells the engine to quit.
    pub fn shutdown(&mut self) -> (command: ProtocolCommand)
        requires
            old(self)@.wf(),
        ensures
            final(self)@.wf(),
            command@ == CommandView::Quit,
            final(self)@ == (BatchView {
                engine: SessionView { phase: Phase::Closed, ..old(self)@.engine },
                ..old(self)@
            }),
    {
        self.engine.shutdown()
    }

    /// The number of positions that have their result; while a search is in
    /// flight or after a failure, the place of the position concerned.
    pub fn completed(&self) -> (n: usize)
        ensures
            n == self@.results.len(),
    {
        self.results.len()
    }

    /// The failure that ended the batch, if one did.
    pub fn failure(&self) -> (e: Option<EngineError>)
        ensures
            e == self@.failure,
    {
        self.failure
    }

    /// The results, one per position and in the order of the positions, if
    /// the batch has not failed and every position has its result.
    pub fn into_results(self) -> (r: Option<Vec<EvaluationResult>>)
        ensures
            r is Some <==> (self@.failure is None && self@.results.len()
                == self@.positions.len()),
            r matches Some(results) ==> slots_of(results@) == self@.results,
    {
        if self.failure.is_none() && self.results.len() == self.positions.len() {
            Some(self.results)
        } else {
            None
        }
    }
}

} // verus!
