//! What holds of the resolver and of every projection, proved from their
//! definitions.

use vstd::prelude::*;

use crate::calgen::{feed_plan, timetable_tables, Reply};
use crate::clock::{day_in_week, weekday_of, Moment};
use crate::error::CalError;
use crate::json::JsonView;
use crate::projector::{
    card_outcome, card_weekday, cards_outcome, class_taught, lesson_row, period_span, projection,
    room_short, subject_name, summary_text, OccurrenceView, NO_ROOM,
};
use crate::scan::{count_true, first_true, lemma_first_true_at, lemma_first_true_is_first};
use crate::tables::{id_hits, row_by_id, table_rows};

verus! {

/// Whether a card is of the class: its lesson resolves and is taught to the
/// class.
pub open spec fn of_class(tables: Seq<JsonView>, card: JsonView, class_id: Seq<char>) -> bool {
    lesson_row(tables, card) matches Ok(lesson) && class_taught(lesson, class_id) == Ok::<
        bool,
        CalError,
    >(true)
}

/// For each card, whether it is of the class.
pub open spec fn class_cards(tables: Seq<JsonView>, cards: Seq<JsonView>, class_id: Seq<char>) -> Seq<
    bool,
> {
    Seq::new(cards.len(), |i: int| of_class(tables, cards[i], class_id))
}

/// Two days lie in the week that starts on `monday`.
pub open spec fn in_week_of(monday: int, a: int, b: int) -> bool {
    &&& weekday_of(monday) == 0
    &&& monday <= a <= monday + 6
    &&& monday <= b <= monday + 6
}

/// Of several tables of one name the first is the one that counts: its rows
/// are the rows of the name, whatever the later ones hold.
pub proof fn law_first_table_counts(tables: Seq<JsonView>, name: Seq<char>, i: int)
    requires
        0 <= i < tables.len(),
        tables[i].text_field("id"@) == Some(name),
        forall|j: int| 0 <= j < i ==> tables[j].text_field("id"@) != Some(name),
    ensures
        table_rows(tables, name) == (match tables[i].field("data_rows"@) {
            Some(rows) => rows.items(),
            None => None,
        }),
{
    lemma_first_true_at(id_hits(tables, name), i);
}

/// A row that is found by an id is a row of the table that has that id, and
/// no row before it has.
pub proof fn law_found_row_has_the_id(tables: Seq<JsonView>, table: Seq<char>, id: Seq<char>) -> (i:
    int)
    requires
        row_by_id(tables, table, id) is Some,
    ensures
        table_rows(tables, table) is Some,
        ({
            let rows = table_rows(tables, table)->0;
            &&& 0 <= i < rows.len()
            &&& row_by_id(tables, table, id) == Some(rows[i])
            &&& rows[i].text_field("id"@) == Some(id)
            &&& forall|j: int| 0 <= j < i ==> rows[j].text_field("id"@) != Some(id)
        }),
{
    let rows = table_rows(tables, table)->0;
    let hits = id_hits(rows, id);
    lemma_first_true_is_first(hits);
    let i = first_true(hits)->0;
    assert forall|j: int| 0 <= j < i implies rows[j].text_field("id"@) != Some(id) by {
        assert(!hits[j]);
    }
    i
}

/// A run of cards that does not fail comes to as many occurrences as it has
/// cards of the class.
pub proof fn lemma_one_occurrence_per_card(
    tables: Seq<JsonView>,
    cards: Seq<JsonView>,
    class_id: Seq<char>,
    now: Moment,
)
    requires
        cards_outcome(tables, cards, class_id, now) is Ok,
    ensures
        cards_outcome(tables, cards, class_id, now)->Ok_0.len() == count_true(
            class_cards(tables, cards, class_id),
        ),
    decreases cards.len(),
{
    if cards.len() > 0 {
        lemma_one_occurrence_per_card(tables, cards.drop_last(), class_id, now);
        assert(class_cards(tables, cards, class_id).drop_last() == class_cards(
            tables,
            cards.drop_last(),
            class_id,
        ));
    }
}

/// A projection that succeeds holds exactly one occurrence for each row of
/// the table `cards` whose lesson resolves and is taught to the class.
pub proof fn law_one_occurrence_per_card(tables: Seq<JsonView>, class_id: Seq<char>, now: Moment)
    requires
        projection(tables, class_id, now) is Ok,
    ensures
        table_rows(tables, "cards"@) is Some,
        projection(tables, class_id, now)->Ok_0.len() == count_true(
            class_cards(tables, table_rows(tables, "cards"@)->0, class_id),
        ),
{
    lemma_one_occurrence_per_card(tables, table_rows(tables, "cards"@)->0, class_id, now);
}

/// A request that succeeds comes to exactly one lesson, and so to one event,
/// for each row of the table `cards` whose lesson resolves and is taught to
/// the class.
pub proof fn law_one_event_per_card(reply: Reply, class_id: Seq<char>, now: Moment)
    requires
        feed_plan(reply, class_id, now) is Ok,
    ensures
        reply is Answer,
        timetable_tables(reply->Answer_0@) is Some,
        table_rows(timetable_tables(reply->Answer_0@)->0, "cards"@) is Some,
        ({
            let tables = timetable_tables(reply->Answer_0@)->0;
            feed_plan(reply, class_id, now)->Ok_0.len() == count_true(
                class_cards(tables, table_rows(tables, "cards"@)->0, class_id),
            )
        }),
{
    law_one_occurrence_per_card(timetable_tables(reply->Answer_0@)->0, class_id, now);
}

/// Every occurrence of a run of cards is what one of its cards comes to.
pub proof fn lemma_occurrence_has_card(
    tables: Seq<JsonView>,
    cards: Seq<JsonView>,
    class_id: Seq<char>,
    now: Moment,
    k: int,
) -> (i: int)
    requires
        cards_outcome(tables, cards, class_id, now) is Ok,
        0 <= k < cards_outcome(tables, cards, class_id, now)->Ok_0.len(),
    ensures
        0 <= i < cards.len(),
        card_outcome(tables, cards[i], class_id, now) == Ok::<Option<OccurrenceView>, CalError>(
            Some(cards_outcome(tables, cards, class_id, now)->Ok_0[k]),
        ),
    decreases cards.len(),
{
    let before = cards_outcome(tables, cards.drop_last(), class_id, now)->Ok_0;
    if k < before.len() {
        lemma_occurrence_has_card(tables, cards.drop_last(), class_id, now, k)
    } else {
        cards.len() - 1
    }
}

/// An occurrence starts and ends on one day, and lasts exactly as long as
/// its period: from the one time of day that the period gives to the other.
/// Where the period starts before it ends, so does the occurrence.
pub proof fn law_span_kept(
    tables: Seq<JsonView>,
    card: JsonView,
    class_id: Seq<char>,
    now: Moment,
)
    requires
        card_outcome(tables, card, class_id, now) matches Ok(Some(_)),
    ensures
        period_span(tables, card) is Ok,
        ({
            let occurrence = card_outcome(tables, card, class_id, now)->Ok_0->0;
            let span = period_span(tables, card)->Ok_0;
            &&& occurrence.start.day == occurrence.end.day
            &&& occurrence.start.second == span.0
            &&& occurrence.end.second == span.1
            &&& occurrence.end.instant() - occurrence.start.instant() == span.1 - span.0
            &&& span.0 < span.1 ==> occurrence.start.instant() < occurrence.end.instant()
        }),
{
}

/// Every occurrence of a projection keeps the span of the period of a card
/// of the table.
pub proof fn law_every_span_kept(
    tables: Seq<JsonView>,
    class_id: Seq<char>,
    now: Moment,
    k: int,
) -> (card: JsonView)
    requires
        projection(tables, class_id, now) is Ok,
        0 <= k < projection(tables, class_id, now)->Ok_0.len(),
    ensures
        table_rows(tables, "cards"@) matches Some(cards) && cards.contains(card),
        period_span(tables, card) is Ok,
        ({
            let occurrence = projection(tables, class_id, now)->Ok_0[k];
            let span = period_span(tables, card)->Ok_0;
            &&& occurrence.end.instant() - occurrence.start.instant() == span.1 - span.0
            &&& span.0 < span.1 ==> occurrence.start.instant() < occurrence.end.instant()
        }),
{
    let cards = table_rows(tables, "cards"@)->0;
    let i = lemma_occurrence_has_card(tables, cards, class_id, now, k);
    law_span_kept(tables, cards[i], class_id, now);
    cards[i]
}

/// Within one week, from its Monday to its Sunday, the day on which a
/// weekday falls is the same whichever day of the week is today: the Monday
/// and as many days more as the weekday counts.
pub proof fn law_day_fixed_within_week(monday: int, a: int, b: int, weekday: int)
    requires
        in_week_of(monday, a, b),
    ensures
        day_in_week(a, weekday) == monday + weekday,
        day_in_week(b, weekday) == monday + weekday,
{
}

/// Projected at any two moments of one week, a run of cards comes to the
/// same days: every occurrence starts and ends as it does at the other
/// moment.
pub proof fn lemma_week_fixes_cards(
    tables: Seq<JsonView>,
    cards: Seq<JsonView>,
    class_id: Seq<char>,
    monday: int,
    a: Moment,
    b: Moment,
)
    requires
        in_week_of(monday, a.day as int, b.day as int),
    ensures
        cards_outcome(tables, cards, class_id, a) == cards_outcome(tables, cards, class_id, b),
    decreases cards.len(),
{
    if cards.len() > 0 {
        lemma_week_fixes_cards(tables, cards.drop_last(), class_id, monday, a, b);
        let card = cards.last();
        assert(card_outcome(tables, card, class_id, a) == card_outcome(tables, card, class_id, b))
            by {
            if card_weekday(card) is Ok {
                let weekday = card_weekday(card)->Ok_0;
                law_day_fixed_within_week(monday, a.day as int, b.day as int, weekday as int);
            }
        }
    }
}

/// The projection is the same at any two moments of one week, from its
/// Monday to its Sunday.
pub proof fn law_projection_fixed_within_week(
    tables: Seq<JsonView>,
    class_id: Seq<char>,
    monday: int,
    a: Moment,
    b: Moment,
)
    requires
        in_week_of(monday, a.day as int, b.day as int),
    ensures
        projection(tables, class_id, a) == projection(tables, class_id, b),
{
    if table_rows(tables, "cards"@) is Some {
        let cards = table_rows(tables, "cards"@)->0;
        lemma_week_fixes_cards(tables, cards, class_id, monday, a, b);
    }
}

/// The lessons that an answer comes to are the same at any two moments of
/// one week, from its Monday to its Sunday: run twice within a week, a
/// request gives events that start and end on the same days.
pub proof fn law_plan_fixed_within_week(
    reply: Reply,
    class_id: Seq<char>,
    monday: int,
    a: Moment,
    b: Moment,
)
    requires
        in_week_of(monday, a.day as int, b.day as int),
    ensures
        feed_plan(reply, class_id, a) == feed_plan(reply, class_id, b),
{
    if reply is Answer {
        let tables = timetable_tables(reply->Answer_0@);
        if tables is Some {
            law_projection_fixed_within_week(tables->0, class_id, monday, a, b);
        }
    }
}

/// Whether a card fails: in its lesson, in the classes of the lesson or, the
/// lesson being taught to the class, in its subject, its period or its
/// weekday. The room is not among them.
pub open spec fn card_fails(tables: Seq<JsonView>, card: JsonView, class_id: Seq<char>) -> bool {
    match lesson_row(tables, card) {
        Err(_) => true,
        Ok(lesson) => match class_taught(lesson, class_id) {
            Err(_) => true,
            Ok(taught) => taught && (subject_name(tables, lesson) is Err || period_span(
                tables,
                card,
            ) is Err || card_weekday(card) is Err),
        },
    }
}

/// A room that cannot be told fails no card: whether a card fails is
/// settled by its lesson, subject, period and weekday alone.
pub proof fn law_room_never_fails(
    tables: Seq<JsonView>,
    card: JsonView,
    class_id: Seq<char>,
    now: Moment,
)
    ensures
        card_outcome(tables, card, class_id, now) is Err <==> card_fails(tables, card, class_id),
{
}

/// Where the room of a card cannot be told, the summary of its occurrence
/// is the subject, a space and the label `NONE`, with which it ends.
pub proof fn law_unknown_room_is_none(
    tables: Seq<JsonView>,
    card: JsonView,
    class_id: Seq<char>,
    now: Moment,
)
    requires
        room_short(tables, card) is None,
        card_outcome(tables, card, class_id, now) matches Ok(Some(_)),
    ensures
        ({
            let occurrence = card_outcome(tables, card, class_id, now)->Ok_0->0;
            let subject = subject_name(tables, lesson_row(tables, card)->Ok_0)->Ok_0;
            let length = occurrence.summary.len() as int;
            &&& occurrence.summary == summary_text(subject, NO_ROOM@)
            &&& length >= NO_ROOM@.len()
            &&& occurrence.summary.subrange(length - NO_ROOM@.len(), length) == NO_ROOM@
        }),
{
    let occurrence = card_outcome(tables, card, class_id, now)->Ok_0->0;
    let subject = subject_name(tables, lesson_row(tables, card)->Ok_0)->Ok_0;
    let head = subject + " "@;
    assert(occurrence.summary == head + NO_ROOM@);
    assert((head + NO_ROOM@).subrange(head.len() as int, (head + NO_ROOM@).len() as int)
        == NO_ROOM@);
}

/// A run of cards that fails holds a card that fails.
pub proof fn lemma_failure_has_card(
    tables: Seq<JsonView>,
    cards: Seq<JsonView>,
    class_id: Seq<char>,
    now: Moment,
) -> (i: int)
    requires
        cards_outcome(tables, cards, class_id, now) is Err,
    ensures
        0 <= i < cards.len(),
        card_outcome(tables, cards[i], class_id, now) is Err,
    decreases cards.len(),
{
    if cards_outcome(tables, cards.drop_last(), class_id, now) is Err {
        lemma_failure_has_card(tables, cards.drop_last(), class_id, now)
    } else {
        cards.len() - 1
    }
}

/// A timetable fails exactly where it has no table of cards or one of its
/// cards fails; and so never for a room that cannot be told.
pub proof fn law_request_fails_with_a_card(
    tables: Seq<JsonView>,
    class_id: Seq<char>,
    now: Moment,
)
    ensures
        projection(tables, class_id, now) is Err <==> (table_rows(tables, "cards"@) matches Some(
            cards,
        ) ==> exists|i: int|
            0 <= i < cards.len() && #[trigger] card_fails(tables, cards[i], class_id)),
{
    if table_rows(tables, "cards"@) is Some {
        let cards = table_rows(tables, "cards"@)->0;
        if projection(tables, class_id, now) is Err {
            let i = lemma_failure_has_card(tables, cards, class_id, now);
            assert(card_fails(tables, cards[i], class_id));
        }
        if exists|i: int| 0 <= i < cards.len() && #[trigger] card_fails(tables, cards[i], class_id) {
            let i = choose|i: int|
                0 <= i < cards.len() && #[trigger] card_fails(tables, cards[i], class_id);
            lemma_one_failure_fails_all(tables, cards, class_id, now, i);
        }
    }
}

/// A card that fails, fails every run of cards that holds it.
pub proof fn lemma_one_failure_fails_all(
    tables: Seq<JsonView>,
    cards: Seq<JsonView>,
    class_id: Seq<char>,
    now: Moment,
    i: int,
)
    requires
        0 <= i < cards.len(),
        card_outcome(tables, cards[i], class_id, now) is Err,
    ensures
        cards_outcome(tables, cards, class_id, now) is Err,
    decreases cards.len(),
{
    if i < cards.len() - 1 {
        lemma_one_failure_fails_all(tables, cards.drop_last(), class_id, now, i);
    }
}

/// A card whose lesson does not resolve fails the whole request, whether or
/// not the card would have been of the class: there is no partial feed.
pub proof fn law_unresolved_lesson_fails_all(
    tables: Seq<JsonView>,
    class_id: Seq<char>,
    now: Moment,
    i: int,
)
    requires
        table_rows(tables, "cards"@) matches Some(cards) && 0 <= i < cards.len() && lesson_row(
            tables,
            cards[i],
        ) is Err,
    ensures
        projection(tables, class_id, now) is Err,
{
    lemma_one_failure_fails_all(tables, table_rows(tables, "cards"@)->0, class_id, now, i);
}

/// A card of the class whose subject does not resolve fails the whole
/// request.
pub proof fn law_unresolved_subject_fails_all(
    tables: Seq<JsonView>,
    class_id: Seq<char>,
    now: Moment,
    i: int,
)
    requires
        table_rows(tables, "cards"@) matches Some(cards) && 0 <= i < cards.len() && of_class(
            tables,
            cards[i],
            class_id,
        ) && subject_name(tables, lesson_row(tables, cards[i])->Ok_0) is Err,
    ensures
        projection(tables, class_id, now) is Err,
{
    lemma_one_failure_fails_all(tables, table_rows(tables, "cards"@)->0, class_id, now, i);
}

} // verus!
