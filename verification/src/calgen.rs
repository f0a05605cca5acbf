//! The scraper: what to ask of the timetable provider, and what to make of
//! its answers.
//!
//! The provider is asked twice. The first answer names the timetable that is
//! in force; the second holds that timetable, as a set of tables. Sending a
//! request and reading the answer is left to the caller; the scraper says
//! what to send, and takes what came back.

use vstd::prelude::*;

use crate::clock::Moment;
use crate::error::CalError;
use crate::event::{event_of, fresh_uid, Event, UID_LENGTH};
use crate::json::{views, Json, JsonView};
use crate::projector::{project, projection, Occurrence, OccurrenceView};
use crate::tables::SlowTables;
use crate::text::{decimal, decimal_text};

verus! {

/// The member under which the provider puts the result of a call.
pub const RESULT: &'static str = "result";

/// The call that tells which timetable is in force.
pub const VIEWER_ENDPOINT: &'static str = "ttviewer.js?__func=getTTViewerData";

/// The call that hands out a timetable.
pub const TIMETABLE_ENDPOINT: &'static str = "regulartt.js?__func=regularttGetData";

/// A request to the provider: a text to post to an address.
#[derive(Debug, Clone, PartialEq, Eq)]
pub struct Request {
    pub url: String,
    pub body: String,
}

/// What came back for a request.
#[derive(Debug, PartialEq, Eq)]
pub enum Reply {
    /// The provider was not reached, or did not answer with a document.
    Failed,
    /// The document that the provider answered with.
    Answer(Json),
}

/// The address of the call `endpoint` at the provider's site `subdomain`.
pub open spec fn request_url(subdomain: Seq<char>, endpoint: Seq<char>) -> Seq<char> {
    "https://"@ + subdomain + ".edupage.org/timetable/server/"@ + endpoint
}

/// The body that carries the arguments `args` of a call.
pub open spec fn request_body(args: Seq<char>) -> Seq<char> {
    "{\"__args\":"@ + args + ",\"__gsh\":\"00000000\"}"@
}

/// The arguments that ask for the timetables of `year`.
pub open spec fn viewer_args(year: u32) -> Seq<char> {
    "[null,"@ + decimal_text(year as nat) + "]"@
}

/// The arguments that ask for the timetable `id`.
pub open spec fn timetable_args(id: Seq<char>) -> Seq<char> {
    "[null,\""@ + id + "\"]"@
}

/// The timetable in force that an answer names: the string at
/// `result.regular.default_num`.
pub open spec fn active_timetable(answer: JsonView) -> Option<Seq<char>> {
    match answer.field(RESULT@) {
        None => None,
        Some(result) => match result.field("regular"@) {
            None => None,
            Some(regular) => regular.text_field("default_num"@),
        },
    }
}

/// The tables that an answer holds: the array at
/// `result.dbiAccessorRes.tables`.
pub open spec fn timetable_tables(answer: JsonView) -> Option<Seq<JsonView>> {
    match answer.field(RESULT@) {
        None => None,
        Some(result) => match result.field("dbiAccessorRes"@) {
            None => None,
            Some(accessor) => match accessor.field("tables"@) {
                None => None,
                Some(tables) => tables.items(),
            },
        },
    }
}

/// The lessons of the week that an answer comes to for the class
/// `class_id`. No answer is a failure of the network; an answer without
/// tables breaks the protocol.
pub open spec fn feed_plan(reply: Reply, class_id: Seq<char>, now: Moment) -> Result<
    Seq<OccurrenceView>,
    CalError,
> {
    match reply {
        Reply::Failed => Err(CalError::Network),
        Reply::Answer(answer) => match timetable_tables(answer@) {
            None => Err(CalError::Protocol),
            Some(tables) => projection(tables, class_id, now),
        },
    }
}

/// The timetable in force that `answer` names.
pub fn active_timetable_of(answer: &Json) -> (id: Option<&str>)
    ensures
        match id {
            Some(id) => active_timetable(answer@) == Some(id@),
            None => active_timetable(answer@) is None,
        },
{
    match answer.get(RESULT) {
        None => None,
        Some(result) => match result.get("regular") {
            None => None,
            Some(regular) => regular.str_at("default_num"),
        },
    }
}

/// The tables that `answer` holds.
pub fn tables_of(answer: &Json) -> (tables: Option<&Vec<Json>>)
    ensures
        match tables {
            Some(tables) => timetable_tables(answer@) == Some(views(tables@)),
            None => timetable_tables(answer@) is None,
        },
{
    match answer.get(RESULT) {
        None => None,
        Some(result) => match result.get("dbiAccessorRes") {
            None => None,
            Some(accessor) => match accessor.get("tables") {
                None => None,
                Some(tables) => tables.as_array(),
            },
        },
    }
}

/// Gives each occurrence its event: made at `now`, repeating weekly, under
/// a fresh identifier.
pub fn events_of(found: &Vec<Occurrence>, now: Moment) -> (events: Vec<Event>)
    ensures
        events@.len() == found@.len(),
        forall|i: int|
            0 <= i < events@.len() ==> (#[trigger] events@[i])@ == event_of(
                events@[i].uid@,
                now,
                found@[i]@,
            ) && events@[i].uid@.len() == UID_LENGTH,
{
    let mut events: Vec<Event> = Vec::new();
    let mut i: usize = 0;
    while i < found.len()
        invariant
            i <= found.len(),
            events@.len() == i,
            forall|k: int|
                0 <= k < i ==> (#[trigger] events@[k])@ == event_of(
                    events@[k].uid@,
                    now,
                    found@[k]@,
                ) && events@[k].uid@.len() == UID_LENGTH,
        decreases found.len() - i,
    {
        let occurrence = Occurrence {
            summary: found[i].summary.clone(),
            start: found[i].start,
            end: found[i].end,
        };
        events.push(Event::new(fresh_uid(), now, occurrence));
        i += 1;
    }
    events
}

/// A scraper of one site of the provider.
pub struct EduScraper<'a> {
    subdomain: &'a str,
}

impl<'a> EduScraper<'a> {
    /// The site that this scraper asks.
    pub closed spec fn subdomain(&self) -> Seq<char> {
        self.subdomain@
    }

    /// A scraper of the site `subdomain`.
    pub fn new(subdomain: &'a str) -> (scraper: Self)
        ensures
            scraper.subdomain() == subdomain@,
    {
        Self { subdomain }
    }

    /// The request that makes the call `endpoint` with the arguments `args`.
    pub fn rcp_call(&self, endpoint: &str, args: &str) -> (request: Request)
        ensures
            request.url@ == request_url(self.subdomain(), endpoint@),
            request.body@ == request_body(args@),
    {
        let mut url = String::from_str("https://");
        url.append(self.subdomain);
        url.append(".edupage.org/timetable/server/");
        url.append(endpoint);
        let mut body = String::from_str("{\"__args\":");
        body.append(args);
        body.append(",\"__gsh\":\"00000000\"}");
        Request { url, body }
    }

    /// The first request: which timetable is in force in `year`?
    pub fn viewer_call(&self, year: u32) -> (request: Request)
        ensures
            request.url@ == request_url(self.subdomain(), VIEWER_ENDPOINT@),
            request.body@ == request_body(viewer_args(year)),
    {
        let mut args = String::from_str("[null,");
        args.append(decimal(year).as_str());
        args.append("]");
        self.rcp_call(VIEWER_ENDPOINT, args.as_str())
    }

    /// The second request, made from the answer to the first: the timetable
    /// that the answer names as in force. No answer is a failure of the
    /// network; an answer that names no timetable breaks the protocol.
    pub fn timetable_call(&self, reply: &Reply) -> (request: Result<Request, CalError>)
        ensures
            match request {
                Ok(request) => reply matches Reply::Answer(answer) && active_timetable(answer@)
                    matches Some(id) && request.url@ == request_url(
                    self.subdomain(),
                    TIMETABLE_ENDPOINT@,
                ) && request.body@ == request_body(timetable_args(id)),
                Err(e) => match reply {
                    Reply::Failed => e == CalError::Network,
                    Reply::Answer(answer) => e == CalError::Protocol && active_timetable(answer@)
                        is None,
                },
            },
    {
        match reply {
            Reply::Failed => Err(CalError::Network),
            Reply::Answer(answer) => match active_timetable_of(answer) {
                None => Err(CalError::Protocol),
                Some(id) => {
                    let mut args = String::from_str("[null,\"");
                    args.append(id);
                    args.append("\"]");
                    Ok(self.rcp_call(TIMETABLE_ENDPOINT, args.as_str()))
                },
            },
        }
    }

    /// The events of the week of `now` for the class `class_id`, made from
    /// the answer to the second request: one for each card of the timetable
    /// whose lesson is taught to the class, in the order of the cards, each
    /// under a fresh identifier. Any failure fails the request as a whole.
    pub fn cal_gen(&self, class_id: &str, reply: &Reply, now: Moment) -> (feed: Result<
        Vec<Event>,
        CalError,
    >)
        requires
            now.wf(),
        ensures
            match feed {
                Ok(events) => feed_plan(*reply, class_id@, now) matches Ok(plan) && events@.len()
                    == plan.len() && forall|i: int|
                    0 <= i < events@.len() ==> (#[trigger] events@[i])@ == event_of(
                        events@[i].uid@,
                        now,
                        plan[i],
                    ) && events@[i].uid@.len() == UID_LENGTH && events@[i].start.wf()
                        && events@[i].end.wf(),
                Err(e) => feed_plan(*reply, class_id@, now) == Err::<Seq<OccurrenceView>, CalError>(
                    e,
                ),
            },
    {
        match reply {
            Reply::Failed => Err(CalError::Network),
            Reply::Answer(answer) => match tables_of(answer) {
                None => Err(CalError::Protocol),
                Some(tables) => {
                    let found = project(&SlowTables(tables), class_id, now)?;
                    Ok(events_of(&found, now))
                },
            },
        }
    }
}

} // verus!
