use chrono::{Datelike, NaiveDate};
use edu_ical::clock::Moment;
use edu_ical::error::CalError;
use edu_ical::event::{Event, Recurrence};
use edu_ical::feed::{answer, feed_text, rule_of, FAILURE, PRODUCT, STAMP_FORMAT, VERSION, WEEKLY_RULE};
use ics::properties::{DtEnd, DtStart, RRule, Summary};
use ics::ICalendar;

fn day(y: i32, m: u32, d: u32) -> i32 {
    NaiveDate::from_ymd_opt(y, m, d).unwrap().num_days_from_ce()
}

fn event(uid: &str, summary: &str, day: i32, from: u32, to: u32) -> Event {
    Event {
        uid: uid.to_string(),
        created: Moment { day, second: 18 * 3600 + 7 },
        summary: summary.to_string(),
        start: Moment { day, second: from },
        end: Moment { day, second: to },
        recurrence: Recurrence::Weekly,
    }
}

fn math() -> Event {
    event("uid-1", "Math 201", day(2024, 5, 13), 8 * 3600, 8 * 3600 + 45 * 60)
}

fn art() -> Event {
    event("uid-2", "Art Gym", day(2024, 12, 31), 23 * 3600 + 59 * 60 + 59, 0)
}

#[test]
fn feed_text_writes_one_block_for_each_event() {
    let text = feed_text(&vec![math(), art()]).unwrap();
    let expected = "BEGIN:VCALENDAR\r\n\
        VERSION:2.0\r\n\
        PRODID:-//xyz Corp//NONSGML PDA Calendar Version 1.0//EN\r\n\
        BEGIN:VEVENT\r\n\
        UID:uid-1\r\n\
        DTSTAMP:20240513T180007\r\n\
        SUMMARY:Math 201\r\n\
        DTSTART:20240513T080000\r\n\
        DTEND:20240513T084500\r\n\
        RRULE:FREQ=WEEKLY\r\n\
        END:VEVENT\r\n\
        BEGIN:VEVENT\r\n\
        UID:uid-2\r\n\
        DTSTAMP:20241231T180007\r\n\
        SUMMARY:Art Gym\r\n\
        DTSTART:20241231T235959\r\n\
        DTEND:20241231T000000\r\n\
        RRULE:FREQ=WEEKLY\r\n\
        END:VEVENT\r\n\
        END:VCALENDAR\r\n";
    assert_eq!(text, expected);
}

#[test]
fn feed_text_writes_what_the_calendar_writer_writes() {
    let mut calendar = ICalendar::new("2.0", "-//xyz Corp//NONSGML PDA Calendar Version 1.0//EN");
    let mut e = ics::Event::new("uid-1", "20240513T180007");
    e.push(Summary::new("Math 201"));
    e.push(DtStart::new("20240513T080000"));
    e.push(DtEnd::new("20240513T084500"));
    e.push(RRule::new("FREQ=WEEKLY"));
    calendar.add_event(e);
    assert_eq!(feed_text(&vec![math()]), Some(calendar.to_string()));
}

#[test]
fn feed_text_of_no_events_is_an_empty_calendar() {
    let empty = ICalendar::new(VERSION, PRODUCT);
    assert_eq!(feed_text(&vec![]), Some(empty.to_string()));
}

#[test]
fn feed_text_folds_long_lines() {
    let long = "A very long name of a subject that will not fit into one line of seventy-five bytes";
    let text = feed_text(&vec![event("u", long, day(2024, 5, 13), 0, 60)]).unwrap();
    assert!(text.contains("\r\n "));
    let unfolded = text.replace("\r\n ", "");
    assert!(unfolded.contains(&format!("SUMMARY:{}\r\n", long)));
}

#[test]
fn feed_text_needs_stamps_that_can_be_written() {
    let beyond = event("u", "Math", i32::MAX - 7, 0, 60);
    assert_eq!(feed_text(&vec![math(), beyond]), None);
    let mut late = math();
    late.end.second = 86_400;
    assert_eq!(feed_text(&vec![late]), None);
    let mut unborn = math();
    unborn.created.day = i32::MIN + 7;
    assert_eq!(feed_text(&vec![unborn, art()]), None);
}

#[test]
fn answer_is_the_feed_or_the_word_of_failure() {
    assert_eq!(FAILURE, "Error");
    for failure in [CalError::Network, CalError::Protocol, CalError::Resolution, CalError::Format] {
        assert_eq!(answer(&Err(failure)), "Error");
    }
    let feed = answer(&Ok(vec![math()]));
    assert_eq!(Some(feed), feed_text(&vec![math()]));
    assert_eq!(answer(&Ok(vec![event("u", "Math", i32::MAX - 7, 0, 60)])), "Error");
}

#[test]
fn stamps_are_written_in_digits() {
    assert_eq!(STAMP_FORMAT, "%Y%m%dT%H%M%S");
    let date = NaiveDate::from_ymd_opt(2024, 5, 13).unwrap();
    assert_eq!(date.weekday(), chrono::Weekday::Mon);
    let text = feed_text(&vec![event("u", "s", date.num_days_from_ce(), 3661, 86_399)]).unwrap();
    assert!(text.contains("DTSTART:20240513T010101\r\n"));
    assert!(text.contains("DTEND:20240513T235959\r\n"));
}

#[test]
fn the_weekly_rule_is_written_as_a_frequency() {
    assert_eq!(rule_of(Recurrence::Weekly), "FREQ=WEEKLY");
    assert_eq!(WEEKLY_RULE, "FREQ=WEEKLY");
}
