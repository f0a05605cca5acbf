use chrono::{Datelike, NaiveDate};
use edu_ical::calgen::{
    active_timetable_of, events_of, tables_of, EduScraper, Reply, Request, TIMETABLE_ENDPOINT,
    VIEWER_ENDPOINT,
};
use edu_ical::clock::Moment;
use edu_ical::error::CalError;
use edu_ical::event::{Event, Recurrence, UID_LENGTH};
use edu_ical::json::{Json, Member};
use edu_ical::projector::Occurrence;

fn text(s: &str) -> Json {
    Json::Str(s.to_string())
}

fn array(items: Vec<&str>) -> Json {
    Json::Array(items.into_iter().map(text).collect())
}

fn object(members: Vec<(&str, Json)>) -> Json {
    Json::Object(
        members
            .into_iter()
            .map(|(key, value)| Member { key: key.to_string(), value })
            .collect(),
    )
}

fn table(name: &str, rows: Vec<Json>) -> Json {
    object(vec![("id", text(name)), ("data_rows", Json::Array(rows))])
}

fn timetable() -> Vec<Json> {
    vec![
        table(
            "cards",
            vec![object(vec![
                ("id", text("c1")),
                ("lessonid", text("l1")),
                ("classroomids", array(vec!["r1"])),
                ("period", text("p1")),
                ("days", text("1000000")),
            ])],
        ),
        table(
            "lessons",
            vec![object(vec![
                ("id", text("l1")),
                ("classids", array(vec!["5A"])),
                ("subjectid", text("s1")),
            ])],
        ),
        table("subjects", vec![object(vec![("id", text("s1")), ("name", text("Math"))])]),
        table("classrooms", vec![object(vec![("id", text("r1")), ("short", text("201"))])]),
        table(
            "periods",
            vec![object(vec![
                ("id", text("p1")),
                ("starttime", text("08:00")),
                ("endtime", text("08:45")),
            ])],
        ),
    ]
}

fn answer_with(tables: Vec<Json>) -> Reply {
    Reply::Answer(object(vec![(
        "result",
        object(vec![("dbiAccessorRes", object(vec![("tables", Json::Array(tables))]))]),
    )]))
}

fn viewer_answer(id: Json) -> Reply {
    Reply::Answer(object(vec![(
        "result",
        object(vec![("regular", object(vec![("default_num", id)]))]),
    )]))
}

fn day(y: i32, m: u32, d: u32) -> i32 {
    NaiveDate::from_ymd_opt(y, m, d).unwrap().num_days_from_ce()
}

fn friday() -> Moment {
    Moment::new(day(2024, 5, 17), 18 * 3600 + 7).unwrap()
}

#[test]
fn rcp_call_addresses_the_site_and_wraps_the_arguments() {
    let scraper = EduScraper::new("myschool");
    assert_eq!(
        scraper.rcp_call("some.js?__func=f", "[1,2]"),
        Request {
            url: "https://myschool.edupage.org/timetable/server/some.js?__func=f".to_string(),
            body: "{\"__args\":[1,2],\"__gsh\":\"00000000\"}".to_string(),
        }
    );
    let nowhere = EduScraper::new("");
    assert_eq!(
        nowhere.rcp_call("", ""),
        Request {
            url: "https://.edupage.org/timetable/server/".to_string(),
            body: "{\"__args\":,\"__gsh\":\"00000000\"}".to_string(),
        }
    );
}

#[test]
fn viewer_call_asks_for_the_year() {
    let scraper = EduScraper::new("myschool");
    assert_eq!(VIEWER_ENDPOINT, "ttviewer.js?__func=getTTViewerData");
    assert_eq!(
        scraper.viewer_call(2022),
        Request {
            url: "https://myschool.edupage.org/timetable/server/ttviewer.js?__func=getTTViewerData"
                .to_string(),
            body: "{\"__args\":[null,2022],\"__gsh\":\"00000000\"}".to_string(),
        }
    );
    assert_eq!(scraper.viewer_call(0).body, "{\"__args\":[null,0],\"__gsh\":\"00000000\"}");
}

#[test]
fn timetable_call_asks_for_the_timetable_in_force() {
    let scraper = EduScraper::new("myschool");
    assert_eq!(TIMETABLE_ENDPOINT, "regulartt.js?__func=regularttGetData");
    assert_eq!(
        scraper.timetable_call(&viewer_answer(text("42"))),
        Ok(Request {
            url: "https://myschool.edupage.org/timetable/server/regulartt.js?__func=regularttGetData"
                .to_string(),
            body: "{\"__args\":[null,\"42\"],\"__gsh\":\"00000000\"}".to_string(),
        })
    );
}

#[test]
fn timetable_call_fails_without_a_timetable_in_force() {
    let scraper = EduScraper::new("myschool");
    assert_eq!(scraper.timetable_call(&Reply::Failed), Err(CalError::Network));
    assert_eq!(
        scraper.timetable_call(&viewer_answer(Json::Number("42".to_string()))),
        Err(CalError::Protocol)
    );
    assert_eq!(scraper.timetable_call(&Reply::Answer(Json::Null)), Err(CalError::Protocol));
    assert_eq!(
        scraper.timetable_call(&Reply::Answer(object(vec![("result", object(vec![]))]))),
        Err(CalError::Protocol)
    );
    assert_eq!(
        scraper.timetable_call(&Reply::Answer(object(vec![(
            "result",
            object(vec![("regular", object(vec![]))])
        )]))),
        Err(CalError::Protocol)
    );
}

#[test]
fn active_timetable_of_reads_the_path() {
    let Reply::Answer(answer) = viewer_answer(text("7")) else { unreachable!() };
    assert_eq!(active_timetable_of(&answer), Some("7"));
    assert_eq!(active_timetable_of(&Json::Array(vec![])), None);
}

#[test]
fn tables_of_reads_the_path() {
    let Reply::Answer(answer) = answer_with(timetable()) else { unreachable!() };
    assert_eq!(tables_of(&answer), Some(&timetable()));
    let Reply::Answer(empty) = answer_with(vec![]) else { unreachable!() };
    assert_eq!(tables_of(&empty), Some(&vec![]));
    assert_eq!(tables_of(&Json::Null), None);
}

#[test]
fn cal_gen_makes_one_weekly_event_for_the_lesson() {
    let scraper = EduScraper::new("myschool");
    let now = friday();
    let events = scraper.cal_gen("5A", &answer_with(timetable()), now).unwrap();
    assert_eq!(events.len(), 1);
    let event = &events[0];
    let monday = day(2024, 5, 13);
    assert_eq!(event.summary, "Math 201");
    assert_eq!(event.start, Moment { day: monday, second: 8 * 3600 });
    assert_eq!(event.end, Moment { day: monday, second: 8 * 3600 + 45 * 60 });
    assert_eq!(event.created, now);
    assert_eq!(event.recurrence, Recurrence::Weekly);
    assert_eq!(event.uid.chars().count(), UID_LENGTH);
    assert_eq!(
        NaiveDate::from_num_days_from_ce_opt(event.start.day).unwrap().weekday(),
        chrono::Weekday::Mon
    );
}

#[test]
fn cal_gen_for_another_class_makes_no_event() {
    let scraper = EduScraper::new("myschool");
    assert_eq!(scraper.cal_gen("9B", &answer_with(timetable()), friday()), Ok(vec![]));
}

#[test]
fn cal_gen_without_tables_breaks_the_protocol() {
    let scraper = EduScraper::new("myschool");
    let replies = vec![
        Reply::Answer(object(vec![("result", object(vec![]))])),
        Reply::Answer(object(vec![("result", object(vec![("dbiAccessorRes", object(vec![]))]))])),
        Reply::Answer(object(vec![(
            "result",
            object(vec![("dbiAccessorRes", object(vec![("tables", text("none"))]))]),
        )])),
        Reply::Answer(object(vec![("dbiAccessorRes", object(vec![("tables", Json::Array(timetable()))]))])),
        Reply::Answer(Json::Null),
    ];
    for reply in replies {
        assert_eq!(scraper.cal_gen("5A", &reply, friday()), Err(CalError::Protocol));
    }
}

#[test]
fn cal_gen_without_an_answer_is_a_failure_of_the_network() {
    let scraper = EduScraper::new("myschool");
    assert_eq!(scraper.cal_gen("5A", &Reply::Failed, friday()), Err(CalError::Network));
}

#[test]
fn cal_gen_passes_on_the_failures_of_the_projection() {
    let scraper = EduScraper::new("myschool");
    let mut tables = timetable();
    tables.remove(1);
    assert_eq!(scraper.cal_gen("5A", &answer_with(tables), friday()), Err(CalError::Resolution));
    let mut tables = timetable();
    tables[4] = table(
        "periods",
        vec![object(vec![
            ("id", text("p1")),
            ("starttime", text("eight")),
            ("endtime", text("08:45")),
        ])],
    );
    assert_eq!(scraper.cal_gen("5A", &answer_with(tables), friday()), Err(CalError::Format));
    assert_eq!(scraper.cal_gen("5A", &answer_with(vec![]), friday()), Err(CalError::Protocol));
}

#[test]
fn events_of_gives_each_occurrence_an_identifier_of_its_own() {
    let now = friday();
    let found: Vec<Occurrence> = (0..20)
        .map(|i| Occurrence {
            summary: format!("Lesson {}", i),
            start: Moment { day: now.day, second: i * 60 },
            end: Moment { day: now.day, second: i * 60 + 59 },
        })
        .collect();
    let events = events_of(&found, now);
    assert_eq!(events.len(), 20);
    for (i, event) in events.iter().enumerate() {
        assert_eq!(event.summary, format!("Lesson {}", i));
        assert_eq!(event.start.second, i as u32 * 60);
        assert_eq!(event.end.second, i as u32 * 60 + 59);
        assert_eq!(event.created, now);
        assert_eq!(event.uid.len(), 36);
        assert!(event.uid.chars().all(|c| c == '-' || c.is_ascii_hexdigit()));
        for other in &events[..i] {
            assert_ne!(other.uid, event.uid);
        }
    }
}

#[test]
fn event_new_takes_over_the_occurrence() {
    let now = friday();
    let occurrence = Occurrence {
        summary: "Math 201".to_string(),
        start: Moment { day: 5, second: 1 },
        end: Moment { day: 5, second: 2 },
    };
    assert_eq!(
        Event::new("some-id".to_string(), now, occurrence),
        Event {
            uid: "some-id".to_string(),
            created: now,
            summary: "Math 201".to_string(),
            start: Moment { day: 5, second: 1 },
            end: Moment { day: 5, second: 2 },
            recurrence: Recurrence::Weekly,
        }
    );
}
