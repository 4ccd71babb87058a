//! Consumption of one batch of queued events, one message after another.
//! A message without a body or with an unreadable body ends the batch with an
//! error, so that the queue delivers the batch again.
use vstd::prelude::*;
use crate::error::{AppError, AppErrorView};
use crate::model::{ItemEvent, ItemEventType, ItemEventView, opt_view};

verus! {

/// The pause that stands for the work done on each event.
pub const PROCESSING_DELAY_MS: u64 = 100;

/// The work for one event: what to log, and how long the work takes.
#[derive(Debug)]
pub struct Dispatch {
    pub event_type: ItemEventType,
    pub item_id: String,
    pub note: String,
    pub delay_ms: u64,
}

pub struct DispatchView {
    pub event_type: ItemEventType,
    pub item_id: Seq<char>,
    pub note: Seq<char>,
    pub delay_ms: u64,
}

impl View for Dispatch {
    type V = DispatchView;

    open spec fn view(&self) -> DispatchView {
        DispatchView {
            event_type: self.event_type,
            item_id: self.item_id@,
            note: self.note@,
            delay_ms: self.delay_ms,
        }
    }
}

pub open spec fn note_prefix(t: ItemEventType) -> Seq<char> {
    match t {
        ItemEventType::Created => "Item created event for item ID: "@,
        ItemEventType::Updated => "Item updated event for item ID: "@,
        ItemEventType::Deleted => "Item deleted event for item ID: "@,
    }
}

pub open spec fn dispatch_of(e: ItemEventView) -> DispatchView {
    DispatchView {
        event_type: e.event_type,
        item_id: e.item.id,
        note: note_prefix(e.event_type) + e.item.id,
        delay_ms: PROCESSING_DELAY_MS,
    }
}

/// The work for an event, chosen by its type.
pub fn dispatch(event: &ItemEvent) -> (r: Dispatch)
    ensures
        r@ == dispatch_of(event@),
{
    let mut note = match event.event_type {
        ItemEventType::Created => String::from_str("Item created event for item ID: "),
        ItemEventType::Updated => String::from_str("Item updated event for item ID: "),
        ItemEventType::Deleted => String::from_str("Item deleted event for item ID: "),
    };
    note.append(event.item.id.as_str());
    Dispatch {
        event_type: event.event_type,
        item_id: event.item.id.clone(),
        note,
        delay_ms: PROCESSING_DELAY_MS,
    }
}

/// What the consumer asks for next.
#[derive(Debug)]
pub enum ConsumerAction {
    /// Parse this message body as an event.
    Decode(String),
    /// Do this event's work.
    Handle(Dispatch),
    /// The batch is over: all processed, or the first failure.
    Finish(Result<(), AppError>),
}

pub enum ConsumerActionView {
    Decode(Seq<char>),
    Handle(DispatchView),
    Finish(Result<(), AppErrorView>),
}

impl View for ConsumerAction {
    type V = ConsumerActionView;

    open spec fn view(&self) -> ConsumerActionView {
        match self {
            ConsumerAction::Decode(b) => ConsumerActionView::Decode(b@),
            ConsumerAction::Handle(d) => ConsumerActionView::Handle(d@),
            ConsumerAction::Finish(Ok(())) => ConsumerActionView::Finish(Ok(())),
            ConsumerAction::Finish(Err(e)) => ConsumerActionView::Finish(Err(e@)),
        }
    }
}

/// What the last action produced.
#[derive(Debug)]
pub enum ConsumerOutcome {
    Decoded(Result<ItemEvent, String>),
    Handled,
}

pub enum ConsumerOutcomeView {
    Decoded(Result<ItemEventView, Seq<char>>),
    Handled,
}

impl View for ConsumerOutcome {
    type V = ConsumerOutcomeView;

    open spec fn view(&self) -> ConsumerOutcomeView {
        match self {
            ConsumerOutcome::Decoded(Ok(e)) => ConsumerOutcomeView::Decoded(Ok(e@)),
            ConsumerOutcome::Decoded(Err(m)) => ConsumerOutcomeView::Decoded(Err(m@)),
            ConsumerOutcome::Handled => ConsumerOutcomeView::Handled,
        }
    }
}

/// Where the consumer stands on the current message.
#[derive(Clone, Copy, Debug, PartialEq, Eq, Structural)]
pub enum Stage {
    Decoding,
    Handling,
    Finished,
}

pub open spec fn bodies_view(bodies: Seq<Option<String>>) -> Seq<Option<Seq<char>>> {
    bodies.map_values(|b: Option<String>| opt_view(b))
}

pub open spec fn no_body_text() -> Seq<char> {
    "SQS message has no body"@
}

pub open spec fn consumer_out_of_order_text() -> Seq<char> {
    "unexpected outcome for the pending message"@
}

/// The stage and action for message `k`: its body to decode, the end of a
/// batch that is all done, or the failure of a message without a body.
pub open spec fn message_step(bodies: Seq<Option<Seq<char>>>, k: int) -> (Stage, ConsumerActionView) {
    if k >= bodies.len() {
        (Stage::Finished, ConsumerActionView::Finish(Ok(())))
    } else {
        match bodies[k] {
            Some(b) => (Stage::Decoding, ConsumerActionView::Decode(b)),
            None => (
                Stage::Finished,
                ConsumerActionView::Finish(Err(AppErrorView::Internal(no_body_text()))),
            ),
        }
    }
}

pub open spec fn consume_spec(
    stage: Stage,
    bodies: Seq<Option<Seq<char>>>,
    k: int,
    o: ConsumerOutcomeView,
) -> (Stage, int, ConsumerActionView) {
    match (stage, o) {
        (Stage::Decoding, ConsumerOutcomeView::Decoded(Ok(e))) => (
            Stage::Handling,
            k,
            ConsumerActionView::Handle(dispatch_of(e)),
        ),
        (Stage::Decoding, ConsumerOutcomeView::Decoded(Err(m))) => (
            Stage::Finished,
            k,
            ConsumerActionView::Finish(Err(AppErrorView::Serialization(m))),
        ),
        (Stage::Handling, ConsumerOutcomeView::Handled) => {
            let next = message_step(bodies, k + 1);
            (next.0, k + 1, next.1)
        },
        _ => (
            Stage::Finished,
            k,
            ConsumerActionView::Finish(Err(AppErrorView::Internal(consumer_out_of_order_text()))),
        ),
    }
}

/// One batch of message bodies being consumed.
#[derive(Debug)]
pub struct EventBatch {
    bodies: Vec<Option<String>>,
    position: usize,
    stage: Stage,
}

impl EventBatch {
    pub closed spec fn bodies(&self) -> Seq<Option<Seq<char>>> {
        bodies_view(self.bodies@)
    }

    pub closed spec fn position(&self) -> int {
        self.position as int
    }

    pub closed spec fn stage(&self) -> Stage {
        self.stage
    }

    pub closed spec fn wf(&self) -> bool {
        &&& self.position <= self.bodies@.len()
        &&& self.stage != Stage::Finished ==> self.position < self.bodies@.len()
    }

    fn step_at(bodies: Vec<Option<String>>, k: usize) -> (r: (EventBatch, ConsumerAction))
        requires
            k <= bodies@.len(),
        ensures
            r.0.wf(),
            r.0.bodies() == bodies_view(bodies@),
            r.0.position() == k,
            (r.0.stage(), r.1@) == message_step(bodies_view(bodies@), k as int),
    {
        if k >= bodies.len() {
            return (
                EventBatch { bodies, position: k, stage: Stage::Finished },
                ConsumerAction::Finish(Ok(())),
            );
        }
        let action = match &bodies[k] {
            Some(b) => ConsumerAction::Decode(b.clone()),
            None => ConsumerAction::Finish(
                Err(AppError::Internal(String::from_str("SQS message has no body"))),
            ),
        };
        let stage = if bodies[k].is_some() {
            Stage::Decoding
        } else {
            Stage::Finished
        };
        (EventBatch { bodies, position: k, stage }, action)
    }

    /// Starts on a batch of message bodies, in delivery order.
    pub fn start(bodies: Vec<Option<String>>) -> (r: (EventBatch, ConsumerAction))
        ensures
            r.0.wf(),
            r.0.bodies() == bodies_view(bodies@),
            r.0.position() == 0,
            (r.0.stage(), r.1@) == message_step(bodies_view(bodies@), 0),
    {
        EventBatch::step_at(bodies, 0)
    }

    /// Takes what the last action produced and gives the next action.
    pub fn advance(self, outcome: ConsumerOutcome) -> (r: (EventBatch, ConsumerAction))
        requires
            self.wf(),
        ensures
            r.0.wf(),
            r.0.bodies() == self.bodies(),
            ({
                let s = consume_spec(self.stage(), self.bodies(), self.position(), outcome@);
                r.0.stage() == s.0 && r.0.position() == s.1 && r.1@ == s.2
            }),
    {
        let k = self.position;
        match (self.stage, outcome) {
            (Stage::Decoding, ConsumerOutcome::Decoded(Ok(e))) => {
                let d = dispatch(&e);
                (EventBatch { bodies: self.bodies, position: k, stage: Stage::Handling }, ConsumerAction::Handle(d))
            },
            (Stage::Decoding, ConsumerOutcome::Decoded(Err(m))) => (
                EventBatch { bodies: self.bodies, position: k, stage: Stage::Finished },
                ConsumerAction::Finish(Err(AppError::Serialization(m))),
            ),
            (Stage::Handling, ConsumerOutcome::Handled) => {
                if k < self.bodies.len() {
                    EventBatch::step_at(self.bodies, k + 1)
                } else {
                    EventBatch::step_at(self.bodies, k)
                }
            },
            _ => (
                EventBatch { bodies: self.bodies, position: k, stage: Stage::Finished },
                ConsumerAction::Finish(
                    Err(AppError::Internal(String::from_str("unexpected outcome for the pending message"))),
                ),
            ),
        }
    }
}

} // verus!
