//! The events endpoint: the delivery log of the service. The client
//! builds the listing URL; the caller performs the GET and hands the
//! response body to the decoder.

use vstd::prelude::*;

use crate::client::decode::{
    get_req_str_field, get_req_u64_field, get_str_field, get_u64_field, req_str, req_u64,
    str_field, str_field_ok, u64_field, u64_field_ok,
};
use crate::client::json::{json_of, obj_get, parse_json, spec_obj_get, Json};
use crate::client::text::{dec_rep, str_eq, u32_dec_string};
use crate::client::transport::{join_url, joined_url};
use crate::client::{Client, QStashError};

verus! {

/// The delivery state of a message, as the service reports it.
#[derive(Debug, Clone, Copy, PartialEq, Eq, Structural)]
#[allow(non_camel_case_types)]
pub enum State {
    /// The message was accepted.
    CREATED,
    /// A delivery is under way.
    ACTIVE,
    /// The message was delivered.
    DELIVERED,
    /// The state was missing or unreadable; the fallback state.
    ERROR,
    /// The message was canceled.
    CANCELED,
    /// A delivery failed and will be retried.
    RETRY,
    /// Every delivery attempt failed.
    FAILED,
}

impl Default for State {
    /// The fallback state.
    fn default() -> (r: Self)
        ensures
            r == State::ERROR,
    {
        State::ERROR
    }
}

/// One entry of the delivery log.
#[derive(Debug, Clone, PartialEq, Eq)]
pub struct Event {
    /// When the event happened, as a Unix timestamp in milliseconds.
    pub time: u64,
    /// The state the message entered.
    pub state: State,
    /// The id of the message.
    pub message_id: String,
    /// When the next delivery attempt is due, if one is.
    pub next_delivery_time: Option<u64>,
    /// The error of a failed attempt.
    pub error: Option<String>,
    /// The destination URL.
    pub url: Option<String>,
    /// The topic the message was published to.
    pub topic_name: Option<String>,
    /// The name of the endpoint delivered to.
    pub endpoint_name: Option<String>,
}

/// A request for a page of the delivery log.
#[derive(Debug, Clone, Copy, PartialEq, Eq, Structural)]
pub struct EventRequest {
    /// Where the page starts: a Unix timestamp in milliseconds.
    pub cursor: Option<u32>,
}

/// A page of the delivery log: the events, and the cursor of the next
/// page if one is there.
#[derive(Debug, Clone, PartialEq, Eq)]
pub struct GetEventsResponse {
    /// The cursor of the next page.
    pub cursor: Option<String>,
    /// The events of this page.
    pub events: Vec<Event>,
}

/// The state a JSON value reads as: the named state for its exact name,
/// and the fallback state for anything else.
pub open spec fn spec_state_of(j: Json) -> State {
    match j {
        Json::Str(s) => if s@ == "CREATED"@ {
            State::CREATED
        } else if s@ == "ACTIVE"@ {
            State::ACTIVE
        } else if s@ == "DELIVERED"@ {
            State::DELIVERED
        } else if s@ == "ERROR"@ {
            State::ERROR
        } else if s@ == "CANCELED"@ {
            State::CANCELED
        } else if s@ == "RETRY"@ {
            State::RETRY
        } else if s@ == "FAILED"@ {
            State::FAILED
        } else {
            State::ERROR
        },
        _ => State::ERROR,
    }
}

/// Reads a JSON value as a delivery state, falling back to the error
/// state on anything unrecognized.
pub fn state_of_json(j: &Json) -> (r: State)
    ensures
        r == spec_state_of(*j),
{
    match j {
        Json::Str(s) => {
            if str_eq(s.as_str(), "CREATED") {
                State::CREATED
            } else if str_eq(s.as_str(), "ACTIVE") {
                State::ACTIVE
            } else if str_eq(s.as_str(), "DELIVERED") {
                State::DELIVERED
            } else if str_eq(s.as_str(), "ERROR") {
                State::ERROR
            } else if str_eq(s.as_str(), "CANCELED") {
                State::CANCELED
            } else if str_eq(s.as_str(), "RETRY") {
                State::RETRY
            } else if str_eq(s.as_str(), "FAILED") {
                State::FAILED
            } else {
                State::ERROR
            }
        },
        _ => State::ERROR,
    }
}

/// The event a JSON value decodes to: an object with a numeric `time`, a
/// `state` field of any shape (unreadable states fall back), a string
/// `messageId`, and optional `nextDeliveryTime`, `error`, `url`,
/// `topicName` and `endpointName` fields of the right shapes.
pub open spec fn spec_event_of(j: Json) -> Option<Event> {
    match j {
        Json::Obj(fields) => {
            let time = spec_obj_get(fields@, "time"@);
            let state = spec_obj_get(fields@, "state"@);
            let mid = spec_obj_get(fields@, "messageId"@);
            let ndt = spec_obj_get(fields@, "nextDeliveryTime"@);
            let err = spec_obj_get(fields@, "error"@);
            let url = spec_obj_get(fields@, "url"@);
            let topic = spec_obj_get(fields@, "topicName"@);
            let endpoint = spec_obj_get(fields@, "endpointName"@);
            if req_u64(time) is Some && state is Some && req_str(mid) is Some && u64_field_ok(
                ndt,
            ) && str_field_ok(err) && str_field_ok(url) && str_field_ok(topic) && str_field_ok(
                endpoint,
            ) {
                Some(
                    Event {
                        time: req_u64(time)->0,
                        state: spec_state_of(state->0),
                        message_id: req_str(mid)->0,
                        next_delivery_time: u64_field(ndt),
                        error: str_field(err),
                        url: str_field(url),
                        topic_name: str_field(topic),
                        endpoint_name: str_field(endpoint),
                    },
                )
            } else {
                None
            }
        },
        _ => None,
    }
}

/// Decodes one JSON value as a log entry.
pub fn event_of_json(j: &Json) -> (r: Option<Event>)
    ensures
        r == spec_event_of(*j),
{
    match j {
        Json::Obj(fields) => {
            let time = match get_req_u64_field(fields, "time") {
                Ok(v) => v,
                Err(_) => {
                    return None;
                },
            };
            let state = match obj_get(fields, "state") {
                Some(s) => state_of_json(s),
                None => {
                    return None;
                },
            };
            let message_id = match get_req_str_field(fields, "messageId") {
                Ok(v) => v,
                Err(_) => {
                    return None;
                },
            };
            let next_delivery_time = match get_u64_field(fields, "nextDeliveryTime") {
                Ok(v) => v,
                Err(_) => {
                    return None;
                },
            };
            let error = match get_str_field(fields, "error") {
                Ok(v) => v,
                Err(_) => {
                    return None;
                },
            };
            let url = match get_str_field(fields, "url") {
                Ok(v) => v,
                Err(_) => {
                    return None;
                },
            };
            let topic_name = match get_str_field(fields, "topicName") {
                Ok(v) => v,
                Err(_) => {
                    return None;
                },
            };
            let endpoint_name = match get_str_field(fields, "endpointName") {
                Ok(v) => v,
                Err(_) => {
                    return None;
                },
            };
            Some(
                Event {
                    time,
                    state,
                    message_id,
                    next_delivery_time,
                    error,
                    url,
                    topic_name,
                    endpoint_name,
                },
            )
        },
        _ => None,
    }
}

/// The events of a JSON array, in the array's order; nothing if any
/// element is not a log entry.
pub open spec fn spec_events_of(items: Seq<Json>) -> Option<Seq<Event>>
    decreases items.len(),
{
    if items.len() == 0 {
        Some(Seq::empty())
    } else {
        match spec_events_of(items.drop_last()) {
            None => None,
            Some(evs) => match spec_event_of(items.last()) {
                None => None,
                Some(ev) => Some(evs.push(ev)),
            },
        }
    }
}

proof fn lemma_events_of_bad_item(items: Seq<Json>, i: int)
    requires
        0 <= i < items.len(),
        spec_event_of(items[i]) is None,
    ensures
        spec_events_of(items) is None,
    decreases items.len(),
{
    if i < items.len() - 1 {
        lemma_events_of_bad_item(items.drop_last(), i);
    }
}

/// Decodes every element of a JSON array as a log entry, keeping order.
#[verifier::loop_isolation(false)]
fn events_of_array(items: &Vec<Json>) -> (r: Option<Vec<Event>>)
    ensures
        r is Some <==> spec_events_of(items@) is Some,
        r matches Some(evs) ==> spec_events_of(items@) == Some(evs@),
{
    let mut out: Vec<Event> = Vec::new();
    let mut i: usize = 0;
    proof {
        assert(items@.take(0) =~= Seq::<Json>::empty());
    }
    while i < items.len()
        invariant
            i <= items@.len(),
            spec_events_of(items@.take(i as int)) == Some(out@),
        decreases items@.len() - i,
    {
        proof {
            assert(items@.take(i + 1 as int).drop_last() =~= items@.take(i as int));
            assert(items@.take(i + 1 as int).last() == items@[i as int]);
        }
        match event_of_json(&items[i]) {
            Some(ev) => {
                out.push(ev);
            },
            None => {
                proof {
                    lemma_events_of_bad_item(items@, i as int);
                }
                return None;
            },
        }
        i += 1;
    }
    proof {
        assert(items@.take(items@.len() as int) =~= items@);
    }
    Some(out)
}

/// What a log page decodes to: the cursor (an optional string) and the
/// events of the `events` array, which must be there.
pub open spec fn spec_events_page_of(j: Json) -> Option<(Option<String>, Seq<Event>)> {
    match j {
        Json::Obj(fields) => {
            let cursor = spec_obj_get(fields@, "cursor"@);
            match spec_obj_get(fields@, "events"@) {
                Some(Json::Arr(items)) => match spec_events_of(items@) {
                    Some(evs) => if str_field_ok(cursor) {
                        Some((str_field(cursor), evs))
                    } else {
                        None
                    },
                    None => None,
                },
                _ => None,
            }
        },
        _ => None,
    }
}

/// Decodes an events-listing response body. A body that is not such a
/// page fails with the events error.
pub fn decode_events_response(body: &str) -> (r: Result<GetEventsResponse, QStashError>)
    ensures
        r is Ok <==> (json_of(body@) matches Some(j) && spec_events_page_of(j) is Some),
        r matches Ok(page) ==> (json_of(body@) matches Some(j) && spec_events_page_of(j) matches
            Some(p) && page.cursor == p.0 && page.events@ == p.1),
        r matches Err(e) ==> e == QStashError::EventError,
{
    let parsed = match parse_json(body) {
        Some(j) => j,
        None => {
            return Err(QStashError::EventError);
        },
    };
    match parsed {
        Json::Obj(fields) => {
            let cursor = match get_str_field(&fields, "cursor") {
                Ok(v) => v,
                Err(_) => {
                    return Err(QStashError::EventError);
                },
            };
            match obj_get(&fields, "events") {
                Some(j) => match j {
                    Json::Arr(items) => match events_of_array(items) {
                        Some(events) => Ok(GetEventsResponse { cursor, events }),
                        None => Err(QStashError::EventError),
                    },
                    _ => Err(QStashError::EventError),
                },
                None => Err(QStashError::EventError),
            }
        },
        _ => Err(QStashError::EventError),
    }
}

/// The path and query of a log page: `/<version>/events`, with the
/// cursor as its one query parameter when given.
pub open spec fn spec_events_path(version: Seq<char>, cursor: Option<u32>) -> Seq<char> {
    let base = "/"@ + version + "/events"@;
    match cursor {
        Some(c) => base + "?cursor="@ + dec_rep(c as nat),
        None => base,
    }
}

impl Client {
    /// The full URL of a log page: the events path resolved against the
    /// base address. Fails with the events error when the resolution
    /// does.
    pub fn events_url(&self, request: &Option<EventRequest>) -> (r: Result<String, QStashError>)
        ensures
            ({
                let path = spec_events_path(self.version@, spec_events_cursor(*request));
                match r {
                    Ok(u) => joined_url(self.base_url@, path) == Some(u@),
                    Err(e) => joined_url(self.base_url@, path) is None && e
                        == QStashError::EventError,
                }
            }),
    {
        let mut path = String::from_str("/");
        path.append(self.version.as_str());
        path.append("/events");
        let ghost base_path = "/"@ + self.version@ + "/events"@;
        proof {
            assert(path@ =~= base_path);
        }
        match request {
            Some(req) => {
                if let Some(c) = req.cursor {
                    path.append("?cursor=");
                    let cs = u32_dec_string(c);
                    path.append(cs.as_str());
                    proof {
                        assert(path@ =~= base_path + "?cursor="@ + dec_rep(c as nat));
                    }
                }
            },
            None => {},
        }
        match join_url(self.base_url.as_str(), path.as_str()) {
            Some(u) => Ok(u),
            None => Err(QStashError::EventError),
        }
    }
}

/// The cursor of an optional events request.
pub open spec fn spec_events_cursor(request: Option<EventRequest>) -> Option<u32> {
    match request {
        Some(r) => r.cursor,
        None => None,
    }
}

} // verus!
