//! The events of the feed: one for each lesson of the week, repeated weekly.

use uuid::Uuid;
use vstd::prelude::*;

use crate::clock::Moment;
use crate::projector::{Occurrence, OccurrenceView};

verus! {

/// The length of an identifier as [`fresh_uid`] writes it.
pub const UID_LENGTH: usize = 36;

/// How an event repeats.
#[derive(Debug, Clone, Copy, PartialEq, Eq, Structural)]
pub enum Recurrence {
    /// Every seven days from its start, without end.
    Weekly,
}

/// An event of the feed.
#[derive(Debug, Clone, PartialEq, Eq)]
pub struct Event {
    /// The identifier, which no other event should share.
    pub uid: String,
    /// When the event was made.
    pub created: Moment,
    pub summary: String,
    pub start: Moment,
    pub end: Moment,
    pub recurrence: Recurrence,
}

/// An [`Event`] with its texts as plain characters.
pub ghost struct EventView {
    pub uid: Seq<char>,
    pub created: Moment,
    pub summary: Seq<char>,
    pub start: Moment,
    pub end: Moment,
    pub recurrence: Recurrence,
}

impl View for Event {
    type V = EventView;

    open spec fn view(&self) -> EventView {
        EventView {
            uid: self.uid@,
            created: self.created,
            summary: self.summary@,
            start: self.start,
            end: self.end,
            recurrence: self.recurrence,
        }
    }
}

/// The views of `events`, in their order.
pub open spec fn event_views(events: Seq<Event>) -> Seq<EventView> {
    Seq::new(events.len(), |i: int| events[i]@)
}

/// The event of an occurrence: it has the summary, start and end of the
/// occurrence, and repeats weekly.
pub open spec fn event_of(uid: Seq<char>, created: Moment, occurrence: OccurrenceView) -> EventView {
    EventView {
        uid,
        created,
        summary: occurrence.summary,
        start: occurrence.start,
        end: occurrence.end,
        recurrence: Recurrence::Weekly,
    }
}

impl Event {
    /// The weekly event of `occurrence`, made at `created` and known as `uid`.
    pub fn new(uid: String, created: Moment, occurrence: Occurrence) -> (event: Event)
        ensures
            event@ == event_of(uid@, created, occurrence@),
    {
        Event {
            uid,
            created,
            summary: occurrence.summary,
            start: occurrence.start,
            end: occurrence.end,
            recurrence: Recurrence::Weekly,
        }
    }
}

/// A fresh identifier for an event.
///
/// Trusted: the call is `uuid::Uuid::new_v4`, which draws a random identifier
/// from the operating system's generator, written out with the `to_string`
/// that `uuid` gives it: 32 hexadecimal digits in five groups with hyphens
/// between them. Which identifier comes is open; the contract states its
/// length alone.
#[verifier::external_body]
pub(crate) fn fresh_uid() -> (uid: String)
    ensures
        uid@.len() == UID_LENGTH,
{
    Uuid::new_v4().to_string()
}

} // verus!
