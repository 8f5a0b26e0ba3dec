//! The output pump: what becomes of each record that the vision process
//! writes to its standard output.
//!
//! The pump runs beside the control path for as long as the output can be
//! read. It publishes every record it reads, as it stands and under one
//! topic, and ends when the output closes or a read fails. Its caller reads
//! and publishes; the pump decides what comes next.
use vstd::prelude::*;

verus! {

/// What the caller tells the pump.
#[derive(Debug, PartialEq, Eq)]
pub enum PumpEvent {
    /// A record was read: one line of the output, without its line ending.
    Line(String),
    /// The read failed.
    ReadFailed,
    /// The output is closed: the process has gone, or has closed its end.
    Closed,
    /// The last message was delivered.
    Published,
    /// The last message could not be delivered.
    PublishFailed,
}

/// What the pump asks of its caller.
#[derive(Debug, PartialEq, Eq)]
pub enum PumpAction {
    /// Read the next record.
    Read,
    /// Publish `payload` under `topic`.
    Publish { topic: &'static str, payload: String },
    /// End the pump. Nothing is restarted and nobody is told.
    Stop,
}

/// A `PumpEvent` with its text as a sequence of characters.
pub enum PumpEventView {
    Line(Seq<char>),
    ReadFailed,
    Closed,
    Published,
    PublishFailed,
}

/// A `PumpAction` with its texts as sequences of characters.
pub enum PumpActionView {
    Read,
    Publish { topic: Seq<char>, payload: Seq<char> },
    Stop,
}

impl View for PumpEvent {
    type V = PumpEventView;

    open spec fn view(&self) -> PumpEventView {
        match self {
            PumpEvent::Line(record) => PumpEventView::Line(record@),
            PumpEvent::ReadFailed => PumpEventView::ReadFailed,
            PumpEvent::Closed => PumpEventView::Closed,
            PumpEvent::Published => PumpEventView::Published,
            PumpEvent::PublishFailed => PumpEventView::PublishFailed,
        }
    }
}

impl View for PumpAction {
    type V = PumpActionView;

    open spec fn view(&self) -> PumpActionView {
        match self {
            PumpAction::Read => PumpActionView::Read,
            PumpAction::Publish { topic, payload } => PumpActionView::Publish {
                topic: topic@,
                payload: payload@,
            },
            PumpAction::Stop => PumpActionView::Stop,
        }
    }
}

/// The topic under which every record is published.
pub open spec fn frame_topic() -> Seq<char> {
    "cv-frame"@
}

/// What the pump does after `event`. A record is published unchanged. After
/// a message the pump reads on, whether the message was delivered or not. A
/// failed read and a closed output end it.
pub open spec fn action_after(event: PumpEventView) -> PumpActionView {
    match event {
        PumpEventView::Line(record) => PumpActionView::Publish {
            topic: frame_topic(),
            payload: record,
        },
        PumpEventView::Published | PumpEventView::PublishFailed => PumpActionView::Read,
        PumpEventView::ReadFailed | PumpEventView::Closed => PumpActionView::Stop,
    }
}

/// The first thing a pump does: it reads.
pub fn pump_start() -> (action: PumpAction)
    ensures
        action@ == PumpActionView::Read,
{
    PumpAction::Read
}

/// What the pump does after `event`.
pub fn pump_step(event: PumpEvent) -> (action: PumpAction)
    ensures
        action@ == action_after(event@),
{
    match event {
        PumpEvent::Line(record) => PumpAction::Publish { topic: "cv-frame", payload: record },
        PumpEvent::Published | PumpEvent::PublishFailed => PumpAction::Read,
        PumpEvent::ReadFailed | PumpEvent::Closed => PumpAction::Stop,
    }
}

/// Whether `event` ends the pump.
pub open spec fn ends_pump(event: PumpEventView) -> bool {
    action_after(event) is Stop
}

/// The events of `events` that the pump lives to see: those before the first
/// one that ends it.
pub open spec fn seen(events: Seq<PumpEventView>) -> Seq<PumpEventView>
    decreases events.len(),
{
    if events.len() == 0 || ends_pump(events[0]) {
        Seq::empty()
    } else {
        seq![events[0]] + seen(events.drop_first())
    }
}

/// The payloads that the pump asks to publish in the course of `events`, in
/// the order in which it asks.
pub open spec fn published(events: Seq<PumpEventView>) -> Seq<Seq<char>>
    decreases events.len(),
{
    if events.len() == 0 {
        Seq::empty()
    } else {
        match action_after(events[0]) {
            PumpActionView::Stop => Seq::empty(),
            PumpActionView::Publish { payload, .. } => seq![payload] + published(
                events.drop_first(),
            ),
            PumpActionView::Read => published(events.drop_first()),
        }
    }
}

/// The record that `event` carries, if it is a record.
pub open spec fn record_of(event: PumpEventView) -> Option<Seq<char>> {
    match event {
        PumpEventView::Line(record) => Some(record),
        _ => None,
    }
}

/// The pump publishes the records it reads, all of them, each once and in
/// the order in which they were read, up to the first failed read or the
/// closing of the output. Whether a message could be delivered changes
/// nothing.
pub proof fn lemma_pump_keeps_order(events: Seq<PumpEventView>)
    ensures
        published(events) == seen(events).filter_map(|event: PumpEventView| record_of(event)),
    decreases events.len(),
{
    let records = |event: PumpEventView| record_of(event);
    if events.len() == 0 || ends_pump(events[0]) {
        assert(seen(events).filter_map(records) == Seq::<Seq<char>>::empty());
    } else {
        let rest = events.drop_first();
        lemma_pump_keeps_order(rest);
        lemma_filter_map_prepend(events[0], seen(rest), records);
    }
}

proof fn lemma_filter_map_prepend(
    head: PumpEventView,
    tail: Seq<PumpEventView>,
    f: spec_fn(PumpEventView) -> Option<Seq<char>>,
)
    ensures
        (seq![head] + tail).filter_map(f) == match f(head) {
            Some(record) => seq![record] + tail.filter_map(f),
            None => tail.filter_map(f),
        },
    decreases tail.len(),
{
    let all = seq![head] + tail;
    if tail.len() == 0 {
        assert(all == seq![head]);
        Seq::lemma_filter_map_singleton(head, f);
        assert(tail.filter_map(f) == Seq::<Seq<char>>::empty());
    } else {
        assert(all.drop_last() == seq![head] + tail.drop_last());
        assert(all.last() == tail.last());
        lemma_filter_map_prepend(head, tail.drop_last(), f);
    }
}

} // verus!
