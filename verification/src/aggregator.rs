//! Folding the updates of one request into its ranked slots.

use vstd::prelude::*;
use crate::protocol::ProtocolEvent;
use crate::variation::{attributes_to_eval, eval_of, well_formed, RawVariation};

verus! {

/// The slots of a request: one per rank, filled where the engine reported it.
pub type Slots = Seq<Option<RawVariation>>;

/// What one request came to: for each rank, in ascending order, the last
/// variation that the engine reported for it, if any.
#[derive(Clone, PartialEq, Eq, Debug)]
pub struct EvaluationResult {
    pub slots: Vec<Option<RawVariation>>,
}

impl View for EvaluationResult {
    type V = Slots;

    open spec fn view(&self) -> Slots {
        self.slots@
    }
}

/// As many slots as the width says, all of them empty.
pub open spec fn empty_slots(width: nat) -> Slots {
    Seq::new(width, |i: int| None::<RawVariation>)
}

/// The variation that an event puts into a slot, if it puts any: the event
/// is a well-formed update whose rank is one of the `width` ranks asked for.
pub open spec fn accepted(width: nat, event: ProtocolEvent) -> Option<RawVariation> {
    match event {
        ProtocolEvent::InfoUpdate(u) => if well_formed(u) && 1 <= eval_of(u).variation_number
            <= width {
            Some(eval_of(u))
        } else {
            None
        },
        _ => None,
    }
}

/// The slots after one more event: an accepted variation replaces whatever
/// its slot held, and any other event changes nothing.
pub open spec fn absorb(slots: Slots, event: ProtocolEvent) -> Slots {
    match accepted(slots.len(), event) {
        Some(v) => slots.update(v.variation_number - 1, Some(v)),
        None => slots,
    }
}

/// The slots after a run of events, taken in order.
pub open spec fn fold_events(slots: Slots, events: Seq<ProtocolEvent>) -> Slots
    decreases events.len(),
{
    if events.len() == 0 {
        slots
    } else {
        absorb(fold_events(slots, events.drop_last()), events.last())
    }
}

/// The last variation that a run of events reports for a rank, if any.
pub open spec fn last_for_rank(width: nat, events: Seq<ProtocolEvent>, rank: int) -> Option<
    RawVariation,
>
    decreases events.len(),
{
    if events.len() == 0 {
        None
    } else {
        match accepted(width, events.last()) {
            Some(v) => if v.variation_number == rank {
                Some(v)
            } else {
                last_for_rank(width, events.drop_last(), rank)
            },
            None => last_for_rank(width, events.drop_last(), rank),
        }
    }
}

/// Folding keeps the number of slots.
pub proof fn fold_keeps_width(slots: Slots, events: Seq<ProtocolEvent>)
    ensures
        fold_events(slots, events).len() == slots.len(),
    decreases events.len(),
{
    if events.len() > 0 {
        fold_keeps_width(slots, events.drop_last());
    }
}

/// The overwrite law. After any run of events on fresh slots there are
/// exactly `width` slots, and the slot of each rank holds the last variation
/// reported for that rank and nothing of any earlier one; it is empty where
/// the run reported none.
pub proof fn overwrite_law(width: nat, events: Seq<ProtocolEvent>, rank: int)
    requires
        1 <= rank <= width,
    ensures
        fold_events(empty_slots(width), events).len() == width,
        fold_events(empty_slots(width), events)[rank - 1] == last_for_rank(width, events, rank),
    decreases events.len(),
{
    fold_keeps_width(empty_slots(width), events);
    if events.len() > 0 {
        overwrite_law(width, events.drop_last(), rank);
        fold_keeps_width(empty_slots(width), events.drop_last());
    }
}

/// Slots are keyed by rank. After any run of events on fresh slots, a filled
/// slot holds a variation of its own rank, and that variation is sound:
/// a mate without score or move, or a score with a move on the board.
pub proof fn slot_holds_its_rank(width: nat, events: Seq<ProtocolEvent>, rank: int)
    requires
        1 <= rank <= width,
    ensures
        fold_events(empty_slots(width), events)[rank - 1] matches Some(v) ==> v.variation_number
            == rank && v.wf(),
    decreases events.len(),
{
    overwrite_law(width, events, rank);
    if events.len() > 0 {
        slot_holds_its_rank(width, events.drop_last(), rank);
        overwrite_law(width, events.drop_last(), rank);
    }
}

/// A run without a single accepted update leaves every slot empty.
pub proof fn nothing_reported_nothing_held(width: nat, events: Seq<ProtocolEvent>)
    requires
        forall|i: int| 0 <= i < events.len() ==> accepted(width, #[trigger] events[i]) is None,
    ensures
        fold_events(empty_slots(width), events) == empty_slots(width),
    decreases events.len(),
{
    if events.len() > 0 {
        nothing_reported_nothing_held(width, events.drop_last());
    }
}

/// The accumulator of one request.
pub struct Aggregator {
    slots: Vec<Option<RawVariation>>,
}

impl View for Aggregator {
    type V = Slots;

    closed spec fn view(&self) -> Slots {
        self.slots@
    }
}

impl Aggregator {
    /// The number of ranks that the aggregator keeps.
    pub open spec fn width(&self) -> nat {
        self@.len()
    }

    /// An aggregator of `width` empty slots.
    pub fn new(width: usize) -> (a: Aggregator)
        ensures
            a@ == empty_slots(width as nat),
    {
        Aggregator { slots: fresh(width) }
    }

    /// Takes in one event of the request in flight. An update is folded into
    /// its slot. Completion hands out the slots as they stand and empties
    /// them for the next request.
    pub fn feed(&mut self, event: &ProtocolEvent) -> (done: Option<EvaluationResult>)
        ensures
            final(self).width() == old(self).width(),
            *event is SearchComplete ==> (done matches Some(r) && r@ == old(self)@) && final(self)@
                == empty_slots(old(self).width()),
            !(*event is SearchComplete) ==> done is None && final(self)@ == absorb(
                old(self)@,
                *event,
            ),
    {
        match event {
            ProtocolEvent::SearchComplete { .. } => {
                let mut taken = fresh(self.slots.len());
                std::mem::swap(&mut self.slots, &mut taken);
                Some(EvaluationResult { slots: taken })
            },
            ProtocolEvent::InfoUpdate(u) => {
                match attributes_to_eval(u) {
                    Ok(v) => {
                        if v.variation_number >= 1 && v.variation_number as usize
                            <= self.slots.len() {
                            self.slots.set((v.variation_number - 1) as usize, Some(v));
                        }
                    },
                    Err(_) => {},
                }
                None
            },
            _ => None,
        }
    }
}

/// A vector of `width` empty slots.
fn fresh(width: usize) -> (v: Vec<Option<RawVariation>>)
    ensures
        v@ == empty_slots(width as nat),
{
    let mut v: Vec<Option<RawVariation>> = Vec::new();
    while v.len() < width
        invariant
            v.len() <= width,
            forall|i: int| 0 <= i < v.len() ==> v[i] is None,
        decreases width - v.len(),
    {
        v.push(None);
    }
    assert(v@ =~= empty_slots(width as nat));
    v
}

} // verus!
