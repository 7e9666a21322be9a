//! The messages endpoint: looking a message up by its id, and cancelling
//! one. The client builds the URL and decodes the lookup response; the
//! caller performs the GET or DELETE.

use vstd::prelude::*;

use crate::client::decode::{
    get_header_map_field, get_req_str_field, get_req_u64_field, get_str_field, get_u32_field,
    get_u64_field, header_entries_view, header_map, header_map_ok, req_str, req_u64, str_field,
    str_field_ok, u32_field, u32_field_ok, u64_field, u64_field_ok,
};
use crate::client::json::{json_of, parse_json, spec_obj_get, Json};
use crate::client::transport::{join_url, joined_url};
use crate::client::{Client, QStashError};

verus! {

/// A message as the service stores it.
#[derive(Debug, Clone, PartialEq, Eq)]
pub struct Message {
    /// The id of the message.
    pub message_id: String,
    /// The destination URL.
    pub url: String,
    /// The topic the message was published to.
    pub topic_name: Option<String>,
    /// The name of the endpoint delivered to.
    pub endpoint_name: Option<String>,
    /// The key of the message.
    pub key: Option<String>,
    /// The method used towards the destination.
    pub method: Option<String>,
    /// The pass-through headers, each name with its values.
    pub header: Option<Vec<(String, Vec<String>)>>,
    /// The body, as text.
    pub body: Option<String>,
    /// How many times a failed delivery is retried.
    pub max_retries: Option<u32>,
    /// Deliver no earlier than this Unix timestamp.
    pub not_before: Option<u64>,
    /// When the message was created, as a Unix timestamp.
    pub created_at: u64,
    /// The callback URL.
    pub callback: Option<String>,
}

/// The mathematical view of a message: its fields, with the header map
/// as a sequence of name/values pairs.
pub ghost struct MessageModel {
    /// The id of the message.
    pub message_id: String,
    /// The destination URL.
    pub url: String,
    /// The topic the message was published to.
    pub topic_name: Option<String>,
    /// The name of the endpoint delivered to.
    pub endpoint_name: Option<String>,
    /// The key of the message.
    pub key: Option<String>,
    /// The method used towards the destination.
    pub method: Option<String>,
    /// The pass-through headers.
    pub header: Option<Seq<(String, Seq<String>)>>,
    /// The body, as text.
    pub body: Option<String>,
    /// How many times a failed delivery is retried.
    pub max_retries: Option<u32>,
    /// Deliver no earlier than this Unix timestamp.
    pub not_before: Option<u64>,
    /// When the message was created.
    pub created_at: u64,
    /// The callback URL.
    pub callback: Option<String>,
}

impl View for Message {
    type V = MessageModel;

    open spec fn view(&self) -> MessageModel {
        MessageModel {
            message_id: self.message_id,
            url: self.url,
            topic_name: self.topic_name,
            endpoint_name: self.endpoint_name,
            key: self.key,
            method: self.method,
            header: match self.header {
                None => None,
                Some(h) => Some(header_entries_view(h@)),
            },
            body: self.body,
            max_retries: self.max_retries,
            not_before: self.not_before,
            created_at: self.created_at,
            callback: self.callback,
        }
    }
}

/// The message a JSON value decodes to: an object with string
/// `messageId` and `url`, a numeric `createdAt`, and optional fields of
/// the right shapes.
pub open spec fn spec_message_of(j: Json) -> Option<MessageModel> {
    match j {
        Json::Obj(fields) => {
            let mid = spec_obj_get(fields@, "messageId"@);
            let url = spec_obj_get(fields@, "url"@);
            let topic = spec_obj_get(fields@, "topicName"@);
            let endpoint = spec_obj_get(fields@, "endpointName"@);
            let key = spec_obj_get(fields@, "key"@);
            let method = spec_obj_get(fields@, "method"@);
            let header = spec_obj_get(fields@, "header"@);
            let body = spec_obj_get(fields@, "body"@);
            let retries = spec_obj_get(fields@, "maxRetries"@);
            let nb = spec_obj_get(fields@, "notBefore"@);
            let created = spec_obj_get(fields@, "createdAt"@);
            let callback = spec_obj_get(fields@, "callback"@);
            if req_str(mid) is Some && req_str(url) is Some && str_field_ok(topic) && str_field_ok(
                endpoint,
            ) && str_field_ok(key) && str_field_ok(method) && header_map_ok(header)
                && str_field_ok(body) && u32_field_ok(retries) && u64_field_ok(nb) && req_u64(
                created,
            ) is Some && str_field_ok(callback) {
                Some(
                    MessageModel {
                        message_id: req_str(mid)->0,
                        url: req_str(url)->0,
                        topic_name: str_field(topic),
                        endpoint_name: str_field(endpoint),
                        key: str_field(key),
                        method: str_field(method),
                        header: header_map(header),
                        body: str_field(body),
                        max_retries: u32_field(retries),
                        not_before: u64_field(nb),
                        created_at: req_u64(created)->0,
                        callback: str_field(callback),
                    },
                )
            } else {
                None
            }
        },
        _ => None,
    }
}

/// Decodes one JSON value as a message.
pub fn message_of_json(j: &Json) -> (r: Option<Message>)
    ensures
        r is Some <==> spec_message_of(*j) is Some,
        r matches Some(m) ==> spec_message_of(*j) == Some(m@),
{
    match j {
        Json::Obj(fields) => {
            let message_id = match get_req_str_field(fields, "messageId") {
                Ok(v) => v,
                Err(_) => {
                    return None;
                },
            };
            let url = match get_req_str_field(fields, "url") {
                Ok(v) => v,
                Err(_) => {
                    return None;
                },
            };
            let topic_name = match get_str_field(fields, "topicName") {
                Ok(v) => v,
                Err(_) => {
                    return None;
                },
            };
            let endpoint_name = match get_str_field(fields, "endpointName") {
                Ok(v) => v,
                Err(_) => {
                    return None;
                },
            };
            let key = match get_str_field(fields, "key") {
                Ok(v) => v,
                Err(_) => {
                    return None;
                },
            };
            let method = match get_str_field(fields, "method") {
                Ok(v) => v,
                Err(_) => {
                    return None;
                },
            };
            let header = match get_header_map_field(fields, "header") {
                Ok(v) => v,
                Err(_) => {
                    return None;
                },
            };
            let body = match get_str_field(fields, "body") {
                Ok(v) => v,
                Err(_) => {
                    return None;
                },
            };
            let max_retries = match get_u32_field(fields, "maxRetries") {
                Ok(v) => v,
                Err(_) => {
                    return None;
                },
            };
            let not_before = match get_u64_field(fields, "notBefore") {
                Ok(v) => v,
                Err(_) => {
                    return None;
                },
            };
            let created_at = match get_req_u64_field(fields, "createdAt") {
                Ok(v) => v,
                Err(_) => {
                    return None;
                },
            };
            let callback = match get_str_field(fields, "callback") {
                Ok(v) => v,
                Err(_) => {
                    return None;
                },
            };
            Some(
                Message {
                    message_id,
                    url,
                    topic_name,
                    endpoint_name,
                    key,
                    method,
                    header,
                    body,
                    max_retries,
                    not_before,
                    created_at,
                    callback,
                },
            )
        },
        _ => None,
    }
}

/// Decodes a message-lookup response body. A body that is not a message
/// fails with the lookup error.
pub fn decode_message_response(body: &str) -> (r: Result<Message, QStashError>)
    ensures
        r is Ok <==> (json_of(body@) matches Some(j) && spec_message_of(j) is Some),
        r matches Ok(m) ==> (json_of(body@) matches Some(j) && spec_message_of(j) == Some(m@)),
        r matches Err(e) ==> e == QStashError::GetMessageError,
{
    let parsed = match parse_json(body) {
        Some(j) => j,
        None => {
            return Err(QStashError::GetMessageError);
        },
    };
    match message_of_json(&parsed) {
        Some(m) => Ok(m),
        None => Err(QStashError::GetMessageError),
    }
}

/// The path of one message: `/<version>/messages/<id>`.
pub open spec fn spec_message_path(version: Seq<char>, message_id: Seq<char>) -> Seq<char> {
    "/"@ + version + "/messages/"@ + message_id
}

/// Whether a cancellation succeeded: exactly the successful status
/// codes; anything else is a deletion error.
pub fn cancel_outcome(status: u16) -> (r: Result<(), QStashError>)
    ensures
        r is Ok <==> 200 <= status < 300,
        r matches Err(e) ==> e == QStashError::DeleteMessageError,
{
    if 200 <= status && status < 300 {
        Ok(())
    } else {
        Err(QStashError::DeleteMessageError)
    }
}

impl Client {
    /// The full URL of one message: the message path resolved against
    /// the base address; nothing when the resolution fails.
    pub fn message_url(&self, message_id: &str) -> (r: Option<String>)
        ensures
            ({
                let path = spec_message_path(self.version@, message_id@);
                match r {
                    Some(u) => joined_url(self.base_url@, path) == Some(u@),
                    None => joined_url(self.base_url@, path) is None,
                }
            }),
    {
        let mut path = String::from_str("/");
        path.append(self.version.as_str());
        path.append("/messages/");
        path.append(message_id);
        proof {
            assert(path@ =~= spec_message_path(self.version@, message_id@));
        }
        join_url(self.base_url.as_str(), path.as_str())
    }
}

} // verus!
