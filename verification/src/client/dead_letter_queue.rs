//! The dead-letter-queue endpoint: messages whose every delivery attempt
//! failed. The client builds the listing URL and decodes the response;
//! the caller performs the GET.

use vstd::prelude::*;

use crate::client::decode::{
    get_header_map_field, get_req_str_field, get_req_u64_field, get_str_field, get_u32_field,
    get_u64_field, header_entries_view, header_map, header_map_ok, req_str, req_u64, str_field,
    str_field_ok, u32_field, u32_field_ok, u64_field, u64_field_ok,
};
use crate::client::json::{json_of, obj_get, parse_json, spec_obj_get, Json};
use crate::client::text::{dec_rep, u32_dec_string};
use crate::client::transport::{join_url, joined_url};
use crate::client::{Client, QStashError};

verus! {

/// A dead-lettered message.
#[derive(Debug, Clone, PartialEq, Eq)]
pub struct DlqMessage {
    /// The id of the message.
    pub message_id: String,
    /// The destination URL.
    pub url: String,
    /// The topic the message was published to.
    pub topic_name: Option<String>,
    /// The name of the endpoint delivered to.
    pub endpoint_name: Option<String>,
    /// The key of the message.
    pub key: Option<String>,
    /// The method used towards the destination.
    pub method: String,
    /// The pass-through headers, each name with its values.
    pub header: Option<Vec<(String, Vec<String>)>>,
    /// The body, as text.
    pub body: Option<String>,
    /// How many times a failed delivery is retried.
    pub max_retries: Option<u32>,
    /// Deliver no earlier than this Unix timestamp.
    pub not_before: Option<u64>,
    /// When the message was created, as a Unix timestamp.
    pub created_at: u64,
    /// The callback URL.
    pub callback: Option<String>,
    /// The id of this entry in the dead-letter queue.
    pub dlq_id: String,
}

/// The mathematical view of a dead-lettered message.
pub ghost struct DlqMessageModel {
    /// The id of the message.
    pub message_id: String,
    /// The destination URL.
    pub url: String,
    /// The topic the message was published to.
    pub topic_name: Option<String>,
    /// The name of the endpoint delivered to.
    pub endpoint_name: Option<String>,
    /// The key of the message.
    pub key: Option<String>,
    /// The method used towards the destination.
    pub method: String,
    /// The pass-through headers.
    pub header: Option<Seq<(String, Seq<String>)>>,
    /// The body, as text.
    pub body: Option<String>,
    /// How many times a failed delivery is retried.
    pub max_retries: Option<u32>,
    /// Deliver no earlier than this Unix timestamp.
    pub not_before: Option<u64>,
    /// When the message was created.
    pub created_at: u64,
    /// The callback URL.
    pub callback: Option<String>,
    /// The id of this entry in the dead-letter queue.
    pub dlq_id: String,
}

impl View for DlqMessage {
    type V = DlqMessageModel;

    open spec fn view(&self) -> DlqMessageModel {
        DlqMessageModel {
            message_id: self.message_id,
            url: self.url,
            topic_name: self.topic_name,
            endpoint_name: self.endpoint_name,
            key: self.key,
            method: self.method,
            header: match self.header {
                None => None,
                Some(h) => Some(header_entries_view(h@)),
            },
            body: self.body,
            max_retries: self.max_retries,
            not_before: self.not_before,
            created_at: self.created_at,
            callback: self.callback,
            dlq_id: self.dlq_id,
        }
    }
}

/// A page of the dead-letter queue.
#[derive(Debug, Clone, PartialEq, Eq)]
pub struct DlqResponse {
    /// The dead-lettered messages of this page.
    pub messages: Vec<DlqMessage>,
}

/// A request for a page of the dead-letter queue.
#[derive(Debug, Clone, Copy, PartialEq, Eq, Structural)]
pub struct DlqRequest {
    /// Where the page starts.
    pub cursor: Option<u32>,
}

/// The dead-lettered message a JSON value decodes to: as a message, with
/// a required string `method` and a required string `dlqId` besides.
pub open spec fn spec_dlq_message_of(j: Json) -> Option<DlqMessageModel> {
    match j {
        Json::Obj(fields) => {
            let mid = spec_obj_get(fields@, "messageId"@);
            let url = spec_obj_get(fields@, "url"@);
            let topic = spec_obj_get(fields@, "topicName"@);
            let endpoint = spec_obj_get(fields@, "endpointName"@);
            let key = spec_obj_get(fields@, "key"@);
            let method = spec_obj_get(fields@, "method"@);
            let header = spec_obj_get(fields@, "header"@);
            let body = spec_obj_get(fields@, "body"@);
            let retries = spec_obj_get(fields@, "maxRetries"@);
            let nb = spec_obj_get(fields@, "notBefore"@);
            let created = spec_obj_get(fields@, "createdAt"@);
            let callback = spec_obj_get(fields@, "callback"@);
            let dlq_id = spec_obj_get(fields@, "dlqId"@);
            if req_str(mid) is Some && req_str(url) is Some && str_field_ok(topic) && str_field_ok(
                endpoint,
            ) && str_field_ok(key) && req_str(method) is Some && header_map_ok(header)
                && str_field_ok(body) && u32_field_ok(retries) && u64_field_ok(nb) && req_u64(
                created,
            ) is Some && str_field_ok(callback) && req_str(dlq_id) is Some {
                Some(
                    DlqMessageModel {
                        message_id: req_str(mid)->0,
                        url: req_str(url)->0,
                        topic_name: str_field(topic),
                        endpoint_name: str_field(endpoint),
                        key: str_field(key),
                        method: req_str(method)->0,
                        header: header_map(header),
                        body: str_field(body),
                        max_retries: u32_field(retries),
                        not_before: u64_field(nb),
                        created_at: req_u64(created)->0,
                        callback: str_field(callback),
                        dlq_id: req_str(dlq_id)->0,
                    },
                )
            } else {
                None
            }
        },
        _ => None,
    }
}

/// Decodes one JSON value as a dead-lettered message.
pub fn dlq_message_of_json(j: &Json) -> (r: Option<DlqMessage>)
    ensures
        r is Some <==> spec_dlq_message_of(*j) is Some,
        r matches Some(m) ==> spec_dlq_message_of(*j) == Some(m@),
{
    match j {
        Json::Obj(fields) => {
            let message_id = match get_req_str_field(fields, "messageId") {
                Ok(v) => v,
                Err(_) => {
                    return None;
                },
            };
            let url = match get_req_str_field(fields, "url") {
                Ok(v) => v,
                Err(_) => {
                    return None;
                },
            };
            let topic_name = match get_str_field(fields, "topicName") {
                Ok(v) => v,
                Err(_) => {
                    return None;
                },
            };
            let endpoint_name = match get_str_field(fields, "endpointName") {
                Ok(v) => v,
                Err(_) => {
                    return None;
                },
            };
            let key = match get_str_field(fields, "key") {
                Ok(v) => v,
                Err(_) => {
                    return None;
                },
            };
            let method = match get_req_str_field(fields, "method") {
                Ok(v) => v,
                Err(_) => {
                    return None;
                },
            };
            let header = match get_header_map_field(fields, "header") {
                Ok(v) => v,
                Err(_) => {
                    return None;
                },
            };
            let body = match get_str_field(fields, "body") {
                Ok(v) => v,
                Err(_) => {
                    return None;
                },
            };
            let max_retries = match get_u32_field(fields, "maxRetries") {
                Ok(v) => v,
                Err(_) => {
                    return None;
                },
            };
            let not_before = match get_u64_field(fields, "notBefore") {
                Ok(v) => v,
                Err(_) => {
                    return None;
                },
            };
            let created_at = match get_req_u64_field(fields, "createdAt") {
                Ok(v) => v,
                Err(_) => {
                    return None;
                },
            };
            let callback = match get_str_field(fields, "callback") {
                Ok(v) => v,
                Err(_) => {
                    return None;
                },
            };
            let dlq_id = match get_req_str_field(fields, "dlqId") {
                Ok(v) => v,
                Err(_) => {
                    return None;
                },
            };
            Some(
                DlqMessage {
                    message_id,
                    url,
                    topic_name,
                    endpoint_name,
                    key,
                    method,
                    header,
                    body,
                    max_retries,
                    not_before,
                    created_at,
                    callback,
                    dlq_id,
                },
            )
        },
        _ => None,
    }
}

/// The view of a decoded page: each message as its model.
pub open spec fn dlq_messages_view(v: Seq<DlqMessage>) -> Seq<DlqMessageModel> {
    v.map_values(|m: DlqMessage| m@)
}

/// The dead-lettered messages of a JSON array, in order; nothing if any
/// element is not one.
pub open spec fn spec_dlq_messages_of(items: Seq<Json>) -> Option<Seq<DlqMessageModel>>
    decreases items.len(),
{
    if items.len() == 0 {
        Some(Seq::empty())
    } else {
        match spec_dlq_messages_of(items.drop_last()) {
            None => None,
            Some(ms) => match spec_dlq_message_of(items.last()) {
                None => None,
                Some(m) => Some(ms.push(m)),
            },
        }
    }
}

proof fn lemma_dlq_messages_bad_item(items: Seq<Json>, i: int)
    requires
        0 <= i < items.len(),
        spec_dlq_message_of(items[i]) is None,
    ensures
        spec_dlq_messages_of(items) is None,
    decreases items.len(),
{
    if i < items.len() - 1 {
        lemma_dlq_messages_bad_item(items.drop_last(), i);
    }
}

/// Decodes every element of a JSON array as a dead-lettered message.
#[verifier::loop_isolation(false)]
fn dlq_messages_of_array(items: &Vec<Json>) -> (r: Option<Vec<DlqMessage>>)
    ensures
        r is Some <==> spec_dlq_messages_of(items@) is Some,
        r matches Some(ms) ==> spec_dlq_messages_of(items@) == Some(dlq_messages_view(ms@)),
{
    let mut out: Vec<DlqMessage> = Vec::new();
    let mut i: usize = 0;
    proof {
        assert(items@.take(0) =~= Seq::<Json>::empty());
        assert(dlq_messages_view(out@) =~= Seq::<DlqMessageModel>::empty());
    }
    while i < items.len()
        invariant
            i <= items@.len(),
            spec_dlq_messages_of(items@.take(i as int)) == Some(dlq_messages_view(out@)),
        decreases items@.len() - i,
    {
        let ghost pre = dlq_messages_view(out@);
        proof {
            assert(items@.take(i + 1 as int).drop_last() =~= items@.take(i as int));
            assert(items@.take(i + 1 as int).last() == items@[i as int]);
        }
        match dlq_message_of_json(&items[i]) {
            Some(m) => {
                let ghost mv = m@;
                out.push(m);
                proof {
                    assert(dlq_messages_view(out@) =~= pre.push(mv));
                }
            },
            None => {
                proof {
                    lemma_dlq_messages_bad_item(items@, i as int);
                }
                return None;
            },
        }
        i += 1;
    }
    proof {
        assert(items@.take(items@.len() as int) =~= items@);
    }
    Some(out)
}

/// What a dead-letter-queue page decodes to: the messages of the
/// `messages` array, which must be there.
pub open spec fn spec_dlq_page_of(j: Json) -> Option<Seq<DlqMessageModel>> {
    match j {
        Json::Obj(fields) => match spec_obj_get(fields@, "messages"@) {
            Some(Json::Arr(items)) => spec_dlq_messages_of(items@),
            _ => None,
        },
        _ => None,
    }
}

/// Decodes a dead-letter-queue listing response body. A body that is
/// not such a page fails with the dead-letter-queue error.
pub fn decode_dlq_response(body: &str) -> (r: Result<DlqResponse, QStashError>)
    ensures
        r is Ok <==> (json_of(body@) matches Some(j) && spec_dlq_page_of(j) is Some),
        r matches Ok(page) ==> (json_of(body@) matches Some(j) && spec_dlq_page_of(j) == Some(
            dlq_messages_view(page.messages@),
        )),
        r matches Err(e) ==> e == QStashError::DeadLetterQueueError,
{
    let parsed = match parse_json(body) {
        Some(j) => j,
        None => {
            return Err(QStashError::DeadLetterQueueError);
        },
    };
    match parsed {
        Json::Obj(fields) => {
            match obj_get(&fields, "messages") {
                Some(j) => match j {
                    Json::Arr(items) => match dlq_messages_of_array(items) {
                        Some(messages) => Ok(DlqResponse { messages }),
                        None => Err(QStashError::DeadLetterQueueError),
                    },
                    _ => Err(QStashError::DeadLetterQueueError),
                },
                None => Err(QStashError::DeadLetterQueueError),
            }
        },
        _ => Err(QStashError::DeadLetterQueueError),
    }
}

/// The path and query of a dead-letter-queue page: `/<version>/dlq`,
/// with the cursor as its one query parameter when given.
pub open spec fn spec_dlq_path(version: Seq<char>, cursor: Option<u32>) -> Seq<char> {
    let base = "/"@ + version + "/dlq"@;
    match cursor {
        Some(c) => base + "?cursor="@ + dec_rep(c as nat),
        None => base,
    }
}

/// The cursor of an optional dead-letter-queue request.
pub open spec fn spec_dlq_cursor(request: Option<DlqRequest>) -> Option<u32> {
    match request {
        Some(r) => r.cursor,
        None => None,
    }
}

impl Client {
    /// The full URL of a dead-letter-queue page: the queue path resolved
    /// against the base address. Fails with the dead-letter-queue error
    /// when the resolution does.
    pub fn dlq_url(&self, request: &Option<DlqRequest>) -> (r: Result<String, QStashError>)
        ensures
            ({
                let path = spec_dlq_path(self.version@, spec_dlq_cursor(*request));
                match r {
                    Ok(u) => joined_url(self.base_url@, path) == Some(u@),
                    Err(e) => joined_url(self.base_url@, path) is None && e
                        == QStashError::DeadLetterQueueError,
                }
            }),
    {
        let mut path = String::from_str("/");
        path.append(self.version.as_str());
        path.append("/dlq");
        let ghost base_path = "/"@ + self.version@ + "/dlq"@;
        proof {
            assert(path@ =~= base_path);
        }
        match request {
            Some(req) => {
                if let Some(c) = req.cursor {
                    path.append("?cursor=");
                    let cs = u32_dec_string(c);
                    path.append(cs.as_str());
                    proof {
                        assert(path@ =~= base_path + "?cursor="@ + dec_rep(c as nat));
                    }
                }
            },
            None => {},
        }
        match join_url(self.base_url.as_str(), path.as_str()) {
            Some(u) => Ok(u),
            None => Err(QStashError::DeadLetterQueueError),
        }
    }
}

} // verus!
