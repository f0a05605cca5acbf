//! The feed: the events of the week written out as one calendar.
//!
//! The writing itself is the work of `ics`, and the stamps of the events are
//! written by `chrono`; this module says which texts go into the calendar,
//! and in which order.

use std::fmt::Write;

use chrono::{NaiveDate, NaiveTime};
use ics::properties::{DtEnd, DtStart, RRule, Summary};
use ics::ICalendar;
use vstd::prelude::*;

use crate::clock::Moment;
use crate::error::CalError;
use crate::event::{event_views, Event, EventView, Recurrence};

verus! {

/// The version of the calendar format that the feed is written in.
pub const VERSION: &'static str = "2.0";

/// The product that the feed names as its maker.
pub const PRODUCT: &'static str = "-//xyz Corp//NONSGML PDA Calendar Version 1.0//EN";

/// The format of a stamp: year, month, day, the letter `T`, hour, minute,
/// second, all in digits.
pub const STAMP_FORMAT: &'static str = "%Y%m%dT%H%M%S";

/// The rule of an event that repeats weekly.
pub const WEEKLY_RULE: &'static str = "FREQ=WEEKLY";

/// What is said in place of a feed that could not be made.
pub const FAILURE: &'static str = "Error";

/// The texts of one event of a calendar.
pub ghost struct Entry {
    pub uid: Seq<char>,
    pub stamp: Seq<char>,
    pub summary: Seq<char>,
    pub start: Seq<char>,
    pub end: Seq<char>,
    pub rule: Seq<char>,
}

/// The calendar of `ics`, carried as it is: what it holds is known by
/// [`calendar_head`] and [`calendar_entries`] alone.
#[verifier::external_type_specification]
#[verifier::external_body]
pub struct ExICalendar<'a>(ICalendar<'a>);

/// What `chrono` writes for the second `second` of the day `day` under the
/// format `format`, or nothing where it knows no such day or second or cannot
/// write under that format.
pub uninterp spec fn stamp_text(day: i32, second: u32, format: Seq<char>) -> Option<Seq<char>>;

/// The version and the product that a calendar was opened with.
pub uninterp spec fn calendar_head(calendar: ICalendar<'static>) -> (Seq<char>, Seq<char>);

/// The events that a calendar holds, in the order in which they were added.
pub uninterp spec fn calendar_entries(calendar: ICalendar<'static>) -> Seq<Entry>;

/// What `ics` writes for a calendar of the given version and product that
/// holds the given events.
pub uninterp spec fn calendar_text(version: Seq<char>, product: Seq<char>, entries: Seq<Entry>) -> Seq<
    char,
>;

/// Writes the stamp of a moment.
///
/// Trusted: the date is made by `chrono::NaiveDate::from_num_days_from_ce_opt`
/// and the time by `chrono::NaiveTime::from_num_seconds_from_midnight_opt`,
/// joined by `chrono::NaiveDate::and_time` and written through
/// `chrono::NaiveDateTime::format`. The contract names the outcome as a
/// function of day, second and format, and says no more of it.
#[verifier::external_body]
pub(crate) fn write_stamp(moment: Moment, format: &str) -> (stamp: Option<String>)
    ensures
        match stamp {
            Some(text) => stamp_text(moment.day, moment.second, format@) == Some(text@),
            None => stamp_text(moment.day, moment.second, format@) is None,
        },
{
    let date = NaiveDate::from_num_days_from_ce_opt(moment.day)?;
    let time = NaiveTime::from_num_seconds_from_midnight_opt(moment.second, 0)?;
    let mut text = String::new();
    match write!(text, "{}", date.and_time(time).format(format)) {
        Ok(()) => Some(text),
        Err(_) => None,
    }
}

/// Opens a calendar without events.
///
/// Trusted: the call is `ics::ICalendar::new`, which makes a calendar with
/// the two properties `VERSION` and `PRODID` and no component.
#[verifier::external_body]
pub(crate) fn open_calendar(version: &str, product: &str) -> (calendar: ICalendar<'static>)
    ensures
        calendar_head(calendar) == (version@, product@),
        calendar_entries(calendar) == Seq::<Entry>::empty(),
{
    ICalendar::new(version.to_string(), product.to_string())
}

/// Adds one event to a calendar, after those that it holds.
///
/// Trusted: the event is made by `ics::Event::new` from `uid` and `stamp`,
/// given its summary, start, end and rule by `ics::Event::push` with the
/// properties `SUMMARY`, `DTSTART`, `DTEND` and `RRULE` of `ics::properties`,
/// in that order, and added by `ics::ICalendar::add_event`, which appends it
/// to the components of the calendar and leaves its properties alone.
#[verifier::external_body]
pub(crate) fn add_entry(
    calendar: &mut ICalendar<'static>,
    uid: &str,
    stamp: &str,
    summary: &str,
    start: &str,
    end: &str,
    rule: &str,
)
    ensures
        calendar_head(*final(calendar)) == calendar_head(*old(calendar)),
        calendar_entries(*final(calendar)) == calendar_entries(*old(calendar)).push(
            (Entry {
                uid: uid@,
                stamp: stamp@,
                summary: summary@,
                start: start@,
                end: end@,
                rule: rule@,
            }),
        ),
{
    let mut event = ics::Event::new(uid.to_string(), stamp.to_string());
    event.push(Summary::new(summary.to_string()));
    event.push(DtStart::new(start.to_string()));
    event.push(DtEnd::new(end.to_string()));
    event.push(RRule::new(rule.to_string()));
    calendar.add_event(event);
}

/// Writes a calendar out.
///
/// Trusted: the call is the `to_string` that `ics::ICalendar` has from its
/// `Display`. The contract names what is written as a function of what the
/// calendar was opened with and of the events that it holds.
#[verifier::external_body]
pub(crate) fn write_calendar(calendar: &ICalendar<'static>) -> (text: String)
    ensures
        text@ == calendar_text(
            calendar_head(*calendar).0,
            calendar_head(*calendar).1,
            calendar_entries(*calendar),
        ),
{
    calendar.to_string()
}

/// The rule that says how an event repeats.
pub open spec fn rule_text(recurrence: Recurrence) -> Seq<char> {
    match recurrence {
        Recurrence::Weekly => WEEKLY_RULE@,
    }
}

/// The texts of an event, where the three stamps can be written.
pub open spec fn entry_of(event: EventView) -> Option<Entry> {
    match stamp_text(event.created.day, event.created.second, STAMP_FORMAT@) {
        None => None,
        Some(stamp) => match stamp_text(event.start.day, event.start.second, STAMP_FORMAT@) {
            None => None,
            Some(start) => match stamp_text(event.end.day, event.end.second, STAMP_FORMAT@) {
                None => None,
                Some(end) => Some(
                    Entry {
                        uid: event.uid,
                        stamp,
                        summary: event.summary,
                        start,
                        end,
                        rule: rule_text(event.recurrence),
                    },
                ),
            },
        },
    }
}

/// The texts of a run of events in their order, where those of each can be
/// written.
pub open spec fn entries_of(events: Seq<EventView>) -> Option<Seq<Entry>>
    decreases events.len(),
{
    if events.len() == 0 {
        Some(Seq::empty())
    } else {
        match entries_of(events.drop_last()) {
            None => None,
            Some(before) => match entry_of(events.last()) {
                None => None,
                Some(entry) => Some(before.push(entry)),
            },
        }
    }
}

/// The feed of a run of events: the calendar that holds them all, in their
/// order, written out.
pub open spec fn feed_of(events: Seq<EventView>) -> Option<Seq<char>> {
    match entries_of(events) {
        None => None,
        Some(entries) => Some(calendar_text(VERSION@, PRODUCT@, entries)),
    }
}

/// What is answered to a request for the feed: the feed, or the word of
/// failure where the events could not be made or cannot be written.
pub open spec fn answer_of(feed: Result<Seq<EventView>, CalError>) -> Seq<char> {
    match feed {
        Err(_) => FAILURE@,
        Ok(events) => match feed_of(events) {
            None => FAILURE@,
            Some(text) => text,
        },
    }
}

/// The text of the rule of `recurrence`.
pub fn rule_of(recurrence: Recurrence) -> (rule: &'static str)
    ensures
        rule@ == rule_text(recurrence),
{
    match recurrence {
        Recurrence::Weekly => WEEKLY_RULE,
    }
}

/// Adds `event` to `calendar`, where its three stamps can be written, and
/// says whether it did.
fn add_event(calendar: &mut ICalendar<'static>, event: &Event) -> (added: bool)
    ensures
        calendar_head(*final(calendar)) == calendar_head(*old(calendar)),
        match entry_of(event@) {
            Some(entry) => added && calendar_entries(*final(calendar)) == calendar_entries(
                *old(calendar),
            ).push(entry),
            None => !added && calendar_entries(*final(calendar)) == calendar_entries(
                *old(calendar),
            ),
        },
{
    let stamp = match write_stamp(event.created, STAMP_FORMAT) {
        None => { return false; },
        Some(stamp) => stamp,
    };
    let start = match write_stamp(event.start, STAMP_FORMAT) {
        None => { return false; },
        Some(start) => start,
    };
    let end = match write_stamp(event.end, STAMP_FORMAT) {
        None => { return false; },
        Some(end) => end,
    };
    add_entry(
        calendar,
        event.uid.as_str(),
        stamp.as_str(),
        event.summary.as_str(),
        start.as_str(),
        end.as_str(),
        rule_of(event.recurrence),
    );
    true
}

/// Writes the feed of `events`: one calendar that holds them in their order.
/// There is no feed where a stamp of an event cannot be written.
pub fn feed_text(events: &Vec<Event>) -> (text: Option<String>)
    ensures
        match text {
            Some(text) => feed_of(event_views(events@)) == Some(text@),
            None => feed_of(event_views(events@)) is None,
        },
{
    let ghost all = event_views(events@);
    let mut calendar = open_calendar(VERSION, PRODUCT);
    let mut i: usize = 0;
    while i < events.len()
        invariant
            i <= events.len(),
            all == event_views(events@),
            calendar_head(calendar) == (VERSION@, PRODUCT@),
            entries_of(all.take(i as int)) == Some(calendar_entries(calendar)),
        decreases events.len() - i,
    {
        proof {
            let upto = all.take(i as int + 1);
            assert(upto.drop_last() == all.take(i as int));
        }
        if !add_event(&mut calendar, &events[i]) {
            proof {
                lemma_unwritable_stays(all, i as int + 1);
            }
            return None;
        }
        i += 1;
    }
    assert(all.take(i as int) == all);
    Some(write_calendar(&calendar))
}

/// The answer to a request for the feed.
pub fn answer(feed: &Result<Vec<Event>, CalError>) -> (answer: String)
    ensures
        answer@ == answer_of(
            match *feed {
                Ok(events) => Ok(event_views(events@)),
                Err(e) => Err(e),
            },
        ),
{
    match feed {
        Err(_) => String::from_str(FAILURE),
        Ok(events) => match feed_text(events) {
            None => String::from_str(FAILURE),
            Some(text) => text,
        },
    }
}

/// Once a run of events cannot be written, no longer run can.
pub proof fn lemma_unwritable_stays(events: Seq<EventView>, n: int)
    requires
        0 <= n <= events.len(),
        entries_of(events.take(n)) is None,
    ensures
        entries_of(events) is None,
    decreases events.len() - n,
{
    if n < events.len() {
        let longer = events.take(n + 1);
        assert(longer.drop_last() == events.take(n));
        lemma_unwritable_stays(events, n + 1);
    } else {
        assert(events.take(n) == events);
    }
}

} // verus!
