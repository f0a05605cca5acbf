//! The occurrence projector: from the cards of the timetable to the lessons
//! that one class has in the current week.
//!
//! A card places a lesson into a period of a weekday. Card by card, in the
//! order of the table, the projector resolves the lesson, passes over the
//! card where the lesson is not taught to the class, and otherwise resolves
//! subject, room and period and lays the lesson on its weekday of the week
//! of "now". The first card that cannot be resolved fails the whole request.

use vstd::prelude::*;

use crate::clock::{clock_reading, day_in_week, read_clock, Moment, DAY_SECONDS, WEEK_DAYS};
use crate::error::CalError;
use crate::json::{views, Json, JsonView};
use crate::marks::{marked_weekday, weekday_mark};
use crate::tables::{row_by_id, table_rows, SlowTables};
use crate::text::same_text;

verus! {

/// The format in which a period gives its times of day: hours and minutes on
/// a clock of 24 hours.
pub const CLOCK_FORMAT: &'static str = "%H:%M";

/// The label of a lesson whose room cannot be told.
pub const NO_ROOM: &'static str = "NONE";

/// One lesson of the week: what it is called, and when it starts and ends.
#[derive(Debug, Clone, PartialEq, Eq)]
pub struct Occurrence {
    pub summary: String,
    pub start: Moment,
    pub end: Moment,
}

/// An [`Occurrence`] with its summary as plain characters.
pub ghost struct OccurrenceView {
    pub summary: Seq<char>,
    pub start: Moment,
    pub end: Moment,
}

impl View for Occurrence {
    type V = OccurrenceView;

    open spec fn view(&self) -> OccurrenceView {
        OccurrenceView { summary: self.summary@, start: self.start, end: self.end }
    }
}

/// The views of `found`, in their order.
pub open spec fn occurrence_views(found: Seq<Occurrence>) -> Seq<OccurrenceView> {
    Seq::new(found.len(), |i: int| found[i]@)
}

/// The row of `table` that `holder` names under `key`. A holder without a
/// string there breaks the protocol; a name without a row does not resolve.
pub open spec fn referred_row(
    tables: Seq<JsonView>,
    holder: JsonView,
    key: Seq<char>,
    table: Seq<char>,
) -> Result<JsonView, CalError> {
    match holder.text_field(key) {
        None => Err(CalError::Protocol),
        Some(id) => match row_by_id(tables, table, id) {
            None => Err(CalError::Resolution),
            Some(row) => Ok(row),
        },
    }
}

/// The text that `holder` has under `key`.
pub open spec fn required_text(holder: JsonView, key: Seq<char>) -> Result<Seq<char>, CalError> {
    match holder.text_field(key) {
        None => Err(CalError::Protocol),
        Some(text) => Ok(text),
    }
}

/// The lesson that a card places.
pub open spec fn lesson_row(tables: Seq<JsonView>, card: JsonView) -> Result<JsonView, CalError> {
    referred_row(tables, card, "lessonid"@, "lessons"@)
}

/// Whether a lesson is taught to `class_id`: whether the array under its
/// `classids` holds that string. Elements that are no strings match nothing.
pub open spec fn class_taught(lesson: JsonView, class_id: Seq<char>) -> Result<bool, CalError> {
    match lesson.field("classids"@) {
        None => Err(CalError::Protocol),
        Some(classes) => match classes.items() {
            None => Err(CalError::Protocol),
            Some(ids) => Ok(ids.contains(JsonView::Str(class_id))),
        },
    }
}

/// The name of the subject of a lesson.
pub open spec fn subject_name(tables: Seq<JsonView>, lesson: JsonView) -> Result<
    Seq<char>,
    CalError,
> {
    match referred_row(tables, lesson, "subjectid"@, "subjects"@) {
        Err(e) => Err(e),
        Ok(subject) => required_text(subject, "name"@),
    }
}

/// The short name of the first classroom of a card, where every step to it
/// succeeds: the card has an array `classroomids`, its first element is a
/// string, a classroom has that id, and that classroom has a string `short`.
pub open spec fn room_short(tables: Seq<JsonView>, card: JsonView) -> Option<Seq<char>> {
    match card.field("classroomids"@) {
        None => None,
        Some(rooms) => match rooms.item(0) {
            None => None,
            Some(first) => match first.text() {
                None => None,
                Some(id) => match row_by_id(tables, "classrooms"@, id) {
                    None => None,
                    Some(room) => room.text_field("short"@),
                },
            },
        },
    }
}

/// The room as the summary names it: its short name, or `NONE` where the
/// room cannot be told.
pub open spec fn room_label(tables: Seq<JsonView>, card: JsonView) -> Seq<char> {
    match room_short(tables, card) {
        Some(short) => short,
        None => NO_ROOM@,
    }
}

/// The summary of a lesson: subject, a space, room.
pub open spec fn summary_text(subject: Seq<char>, room: Seq<char>) -> Seq<char> {
    subject + " "@ + room
}

/// The time of day that `period` gives under `key`, in seconds from
/// midnight.
pub open spec fn clock_at(period: JsonView, key: Seq<char>) -> Result<u32, CalError> {
    match period.text_field(key) {
        None => Err(CalError::Protocol),
        Some(text) => match clock_reading(text, CLOCK_FORMAT@) {
            None => Err(CalError::Format),
            Some(seconds) => Ok(seconds),
        },
    }
}

/// Start and end of the period of a card, in seconds from midnight.
pub open spec fn period_span(tables: Seq<JsonView>, card: JsonView) -> Result<
    (u32, u32),
    CalError,
> {
    match referred_row(tables, card, "period"@, "periods"@) {
        Err(e) => Err(e),
        Ok(period) => match clock_at(period, "starttime"@) {
            Err(e) => Err(e),
            Ok(start) => match clock_at(period, "endtime"@) {
                Err(e) => Err(e),
                Ok(end) => Ok((start, end)),
            },
        },
    }
}

/// The weekday of a card.
pub open spec fn card_weekday(card: JsonView) -> Result<u32, CalError> {
    match card.text_field("days"@) {
        None => Err(CalError::Protocol),
        Some(days) => match marked_weekday(days) {
            None => Err(CalError::Format),
            Some(weekday) => Ok(weekday),
        },
    }
}

/// A lesson laid on its weekday of the week of `now`.
pub open spec fn laid_out(
    summary: Seq<char>,
    weekday: u32,
    start: u32,
    end: u32,
    now: Moment,
) -> OccurrenceView {
    let day = day_in_week(now.day as int, weekday as int) as i32;
    OccurrenceView {
        summary,
        start: Moment { day, second: start },
        end: Moment { day, second: end },
    }
}

/// What a lesson of the class comes to, the lesson of the card being known.
pub open spec fn lesson_outcome(
    tables: Seq<JsonView>,
    card: JsonView,
    lesson: JsonView,
    now: Moment,
) -> Result<OccurrenceView, CalError> {
    match subject_name(tables, lesson) {
        Err(e) => Err(e),
        Ok(subject) => match period_span(tables, card) {
            Err(e) => Err(e),
            Ok(span) => match card_weekday(card) {
                Err(e) => Err(e),
                Ok(weekday) => Ok(
                    laid_out(
                        summary_text(subject, room_label(tables, card)),
                        weekday,
                        span.0,
                        span.1,
                        now,
                    ),
                ),
            },
        },
    }
}

/// What one card comes to: an occurrence, nothing where its lesson is not
/// taught to the class, or the failure of the first step that fails.
pub open spec fn card_outcome(
    tables: Seq<JsonView>,
    card: JsonView,
    class_id: Seq<char>,
    now: Moment,
) -> Result<Option<OccurrenceView>, CalError> {
    match lesson_row(tables, card) {
        Err(e) => Err(e),
        Ok(lesson) => match class_taught(lesson, class_id) {
            Err(e) => Err(e),
            Ok(taught) => if taught {
                match lesson_outcome(tables, card, lesson, now) {
                    Err(e) => Err(e),
                    Ok(occurrence) => Ok(Some(occurrence)),
                }
            } else {
                Ok(None)
            },
        },
    }
}

/// What a run of cards comes to: the occurrences of those that are taught to
/// the class, in the order of the cards, or the failure of the first card
/// that fails.
pub open spec fn cards_outcome(
    tables: Seq<JsonView>,
    cards: Seq<JsonView>,
    class_id: Seq<char>,
    now: Moment,
) -> Result<Seq<OccurrenceView>, CalError>
    decreases cards.len(),
{
    if cards.len() == 0 {
        Ok(Seq::empty())
    } else {
        match cards_outcome(tables, cards.drop_last(), class_id, now) {
            Err(e) => Err(e),
            Ok(before) => match card_outcome(tables, cards.last(), class_id, now) {
                Err(e) => Err(e),
                Ok(None) => Ok(before),
                Ok(Some(occurrence)) => Ok(before.push(occurrence)),
            },
        }
    }
}

/// The projection of a timetable for one class: what the rows of the table
/// `cards` come to. A timetable without that table breaks the protocol.
pub open spec fn projection(tables: Seq<JsonView>, class_id: Seq<char>, now: Moment) -> Result<
    Seq<OccurrenceView>,
    CalError,
> {
    match table_rows(tables, "cards"@) {
        None => Err(CalError::Protocol),
        Some(cards) => cards_outcome(tables, cards, class_id, now),
    }
}

/// Follows the reference that `holder` has under `key` into `table`.
pub fn follow<'a>(tables: &SlowTables<'a>, holder: &Json, key: &str, table: &str) -> (row: Result<
    &'a Json,
    CalError,
>)
    ensures
        match row {
            Ok(row) => referred_row(tables@, holder@, key@, table@) == Ok::<JsonView, CalError>(
                row@,
            ),
            Err(e) => referred_row(tables@, holder@, key@, table@) == Err::<JsonView, CalError>(e),
        },
{
    match holder.str_at(key) {
        None => Err(CalError::Protocol),
        Some(id) => match tables.value(table, id) {
            None => Err(CalError::Resolution),
            Some(row) => Ok(row),
        },
    }
}

/// The text that `holder` has under `key`.
pub fn text_of<'a>(holder: &'a Json, key: &str) -> (text: Result<&'a str, CalError>)
    ensures
        match text {
            Ok(text) => required_text(holder@, key@) == Ok::<Seq<char>, CalError>(text@),
            Err(e) => required_text(holder@, key@) == Err::<Seq<char>, CalError>(e),
        },
{
    match holder.str_at(key) {
        None => Err(CalError::Protocol),
        Some(text) => Ok(text),
    }
}

/// Whether `lesson` is taught to the class `class_id`.
pub fn teaches(lesson: &Json, class_id: &str) -> (taught: Result<bool, CalError>)
    ensures
        taught == class_taught(lesson@, class_id@),
{
    let ids = match lesson.get("classids") {
        None => { return Err(CalError::Protocol); },
        Some(classes) => match classes.as_array() {
            None => { return Err(CalError::Protocol); },
            Some(ids) => ids,
        },
    };
    let ghost seen = views(ids@);
    let ghost wanted = JsonView::Str(class_id@);
    let mut i: usize = 0;
    while i < ids.len()
        invariant
            i <= ids.len(),
            seen == views(ids@),
            wanted == JsonView::Str(class_id@),
            class_taught(lesson@, class_id@) == Ok::<bool, CalError>(seen.contains(wanted)),
            forall|j: int| 0 <= j < i ==> seen[j] != wanted,
        decreases ids.len() - i,
    {
        let hit = match ids[i].as_str() {
            Some(id) => same_text(id, class_id),
            None => false,
        };
        if hit {
            assert(seen[i as int] == wanted);
            return Ok(true);
        }
        i += 1;
    }
    Ok(false)
}

/// The room of a card as the summary names it. A room that cannot be told
/// fails nothing: its label is `NONE`.
pub fn room_of<'a>(tables: &SlowTables<'a>, card: &Json) -> (label: &'a str)
    ensures
        label@ == room_label(tables@, card@),
{
    let id = match card.get("classroomids") {
        None => { return NO_ROOM; },
        Some(rooms) => match rooms.at(0) {
            None => { return NO_ROOM; },
            Some(first) => match first.as_str() {
                None => { return NO_ROOM; },
                Some(id) => id,
            },
        },
    };
    match tables.value("classrooms", id) {
        None => NO_ROOM,
        Some(room) => match room.str_at("short") {
            None => NO_ROOM,
            Some(short) => short,
        },
    }
}

/// The summary of a lesson.
pub fn summarize(subject: &str, room: &str) -> (summary: String)
    ensures
        summary@ == summary_text(subject@, room@),
{
    let mut summary = String::from_str(subject);
    summary.append(" ");
    summary.append(room);
    summary
}

/// The time of day that `period` gives under `key`.
pub fn clock_of(period: &Json, key: &str) -> (seconds: Result<u32, CalError>)
    ensures
        seconds == clock_at(period@, key@),
        seconds matches Ok(s) ==> s < DAY_SECONDS,
{
    match period.str_at(key) {
        None => Err(CalError::Protocol),
        Some(text) => match read_clock(text, CLOCK_FORMAT) {
            None => Err(CalError::Format),
            Some(seconds) => Ok(seconds),
        },
    }
}

/// Start and end of the period of a card.
pub fn span_of(tables: &SlowTables, card: &Json) -> (span: Result<(u32, u32), CalError>)
    ensures
        span == period_span(tables@, card@),
        span matches Ok(s) ==> s.0 < DAY_SECONDS && s.1 < DAY_SECONDS,
{
    let period = follow(tables, card, "period", "periods")?;
    let start = clock_of(period, "starttime")?;
    let end = clock_of(period, "endtime")?;
    Ok((start, end))
}

/// The weekday of a card.
pub fn weekday_of_card(card: &Json) -> (weekday: Result<u32, CalError>)
    ensures
        weekday == card_weekday(card@),
        weekday matches Ok(w) ==> w < WEEK_DAYS,
{
    match card.str_at("days") {
        None => Err(CalError::Protocol),
        Some(days) => match weekday_mark(days) {
            None => Err(CalError::Format),
            Some(weekday) => Ok(weekday),
        },
    }
}

/// Lays a lesson on its weekday of the week of `now`: it starts and ends on
/// that day, `start` and `end` seconds after midnight.
pub fn lay_out(summary: String, weekday: u32, start: u32, end: u32, now: Moment) -> (occurrence:
    Occurrence)
    requires
        now.wf(),
        weekday < WEEK_DAYS,
        start < DAY_SECONDS,
        end < DAY_SECONDS,
    ensures
        occurrence@ == laid_out(summary@, weekday, start, end, now),
        occurrence.start.wf(),
        occurrence.end.wf(),
{
    let day = now.day_on(weekday);
    Occurrence {
        summary,
        start: Moment { day, second: start },
        end: Moment { day, second: end },
    }
}

/// Projects one card: resolves its lesson, passes over it where the lesson
/// is not taught to `class_id`, and otherwise lays the lesson out in the week
/// of `now`.
pub fn project_card(tables: &SlowTables, card: &Json, class_id: &str, now: Moment) -> (outcome:
    Result<Option<Occurrence>, CalError>)
    requires
        now.wf(),
    ensures
        match outcome {
            Ok(Some(occurrence)) => card_outcome(tables@, card@, class_id@, now) == Ok::<
                Option<OccurrenceView>,
                CalError,
            >(Some(occurrence@)) && occurrence.start.wf() && occurrence.end.wf(),
            Ok(None) => card_outcome(tables@, card@, class_id@, now) == Ok::<
                Option<OccurrenceView>,
                CalError,
            >(None),
            Err(e) => card_outcome(tables@, card@, class_id@, now) == Err::<
                Option<OccurrenceView>,
                CalError,
            >(e),
        },
{
    let lesson = follow(tables, card, "lessonid", "lessons")?;
    if !teaches(lesson, class_id)? {
        return Ok(None);
    }
    let subject = follow(tables, lesson, "subjectid", "subjects")?;
    let name = text_of(subject, "name")?;
    let summary = summarize(name, room_of(tables, card));
    let span = span_of(tables, card)?;
    let weekday = weekday_of_card(card)?;
    Ok(Some(lay_out(summary, weekday, span.0, span.1, now)))
}

/// Projects the timetable for the class `class_id` into the week of `now`:
/// one occurrence for each card whose lesson is taught to the class, in the
/// order of the cards. Any card that cannot be resolved fails the request.
pub fn project(tables: &SlowTables, class_id: &str, now: Moment) -> (found: Result<
    Vec<Occurrence>,
    CalError,
>)
    requires
        now.wf(),
    ensures
        match found {
            Ok(list) => projection(tables@, class_id@, now) == Ok::<Seq<OccurrenceView>, CalError>(
                occurrence_views(list@),
            ) && forall|i: int|
                0 <= i < list@.len() ==> (#[trigger] list@[i]).start.wf() && list@[i].end.wf(),
            Err(e) => projection(tables@, class_id@, now) == Err::<Seq<OccurrenceView>, CalError>(
                e,
            ),
        },
{
    let cards = match tables.table("cards") {
        None => { return Err(CalError::Protocol); },
        Some(cards) => cards,
    };
    let ghost all = views(cards@);
    let mut list: Vec<Occurrence> = Vec::new();
    let mut i: usize = 0;
    assert(occurrence_views(list@) == Seq::<OccurrenceView>::empty());
    while i < cards.len()
        invariant
            i <= cards.len(),
            now.wf(),
            all == views(cards@),
            table_rows(tables@, "cards"@) == Some(all),
            cards_outcome(tables@, all.take(i as int), class_id@, now) == Ok::<
                Seq<OccurrenceView>,
                CalError,
            >(occurrence_views(list@)),
            forall|k: int|
                0 <= k < list@.len() ==> (#[trigger] list@[k]).start.wf() && list@[k].end.wf(),
        decreases cards.len() - i,
    {
        let ghost before = occurrence_views(list@);
        proof {
            let upto = all.take(i as int + 1);
            assert(upto.drop_last() == all.take(i as int));
        }
        match project_card(tables, &cards[i], class_id, now) {
            Err(e) => {
                proof {
                    lemma_failure_stays(tables@, all, class_id@, now, i as int + 1);
                }
                return Err(e);
            },
            Ok(None) => {},
            Ok(Some(occurrence)) => {
                list.push(occurrence);
                assert(occurrence_views(list@) == before.push(occurrence@));
            },
        }
        i += 1;
    }
    assert(all.take(i as int) == all);
    Ok(list)
}

/// Once a run of cards has failed, every longer run fails in the same way.
pub proof fn lemma_failure_stays(
    tables: Seq<JsonView>,
    cards: Seq<JsonView>,
    class_id: Seq<char>,
    now: Moment,
    n: int,
)
    requires
        0 <= n <= cards.len(),
        cards_outcome(tables, cards.take(n), class_id, now) is Err,
    ensures
        cards_outcome(tables, cards, class_id, now) == cards_outcome(
            tables,
            cards.take(n),
            class_id,
            now,
        ),
    decreases cards.len() - n,
{
    if n < cards.len() {
        let longer = cards.take(n + 1);
        assert(longer.drop_last() == cards.take(n));
        lemma_failure_stays(tables, cards, class_id, now, n + 1);
    } else {
        assert(cards.take(n) == cards);
    }
}

} // verus!
