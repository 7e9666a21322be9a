//! Request-side data: the destination, the delivery options, the publish
//! request, and the normalized per-target outcome record.

use vstd::prelude::*;

verus! {

/// The version of the service API to use; the default is V2.
#[derive(Debug, Clone, Copy, PartialEq, Eq, Structural)]
pub enum Version {
    V1,
    V2,
}

impl Version {
    /// The path segment that names this version on the wire.
    pub fn as_str(&self) -> (r: &'static str)
        ensures
            r@ == self.spec_str(),
    {
        match self {
            Version::V1 => "v1",
            Version::V2 => "v2",
        }
    }

    /// The path segment of each version.
    pub open spec fn spec_str(&self) -> Seq<char> {
        match self {
            Version::V1 => "v1"@,
            Version::V2 => "v2"@,
        }
    }
}

/// The logical destination of a publish: a direct subscriber URL, or a
/// named topic that fans out to zero or more subscribers.
///
/// The URL is carried as its absolute string form. The variant decides
/// both the request path and how the response is decoded: a direct URL
/// answers with a single outcome record, a topic with an ordered list of
/// records, one per fanned-out subscriber.
#[derive(Debug, Clone)]
pub enum PublishRequestUrl {
    /// An absolute URL of the destination server.
    Url(String),
    /// The name of a topic.
    Topic(String),
}

/// How a response body must be decoded; fixed by the destination variant
/// at request time, never by the response's own shape.
#[derive(Debug, Clone, Copy, PartialEq, Eq, Structural)]
pub enum DecodeMode {
    /// One outcome record.
    Single,
    /// An ordered list of outcome records.
    List,
}

impl PublishRequestUrl {
    /// The decode mode that this destination calls for.
    pub fn decode_mode(&self) -> (r: DecodeMode)
        ensures
            r == self.spec_decode_mode(),
    {
        match self {
            PublishRequestUrl::Url(_) => DecodeMode::Single,
            PublishRequestUrl::Topic(_) => DecodeMode::List,
        }
    }

    /// A direct URL is decoded as a single record, a topic as a list.
    pub open spec fn spec_decode_mode(&self) -> DecodeMode {
        match self {
            PublishRequestUrl::Url(_) => DecodeMode::Single,
            PublishRequestUrl::Topic(_) => DecodeMode::List,
        }
    }
}

/// The per-publish delivery directives. Every field is optional; absence
/// means the service default.
pub struct PublishOptions {
    /// Pass-through headers, sent on to the destination. Merged before the
    /// directive headers, so a directive overwrites a colliding name.
    pub headers: Option<Vec<(String, String)>>,

    /// Delay the delivery, in seconds.
    pub delay: Option<u32>,

    /// Deliver no earlier than this Unix timestamp, in seconds. When both
    /// this and `delay` are set, this wins and no delay header is sent.
    pub not_before: Option<u32>,

    /// A caller-chosen id under which duplicate messages are detected.
    pub deduplication_id: Option<String>,

    /// If true, the message content is hashed into a deduplication id.
    pub content_based_deduplication: Option<bool>,

    /// How many times a failed delivery is retried, server-side.
    pub retries: Option<u32>,

    /// A publicly reachable URL that the destination's response is
    /// forwarded to.
    pub callback: Option<String>,

    /// The method the service uses towards the destination; `POST` when
    /// absent.
    pub method: Option<String>,
}

/// The options value with no directive set.
pub open spec fn spec_default_options() -> PublishOptions {
    PublishOptions {
        headers: None,
        delay: None,
        not_before: None,
        deduplication_id: None,
        content_based_deduplication: None,
        retries: None,
        callback: None,
        method: None,
    }
}

impl Default for PublishOptions {
    /// No directives: every field absent.
    fn default() -> (r: Self)
        ensures
            r == spec_default_options(),
    {
        PublishOptions {
            headers: None,
            delay: None,
            not_before: None,
            deduplication_id: None,
            content_based_deduplication: None,
            retries: None,
            callback: None,
            method: None,
        }
    }
}

/// A publish call: destination, optional raw body, and the delivery
/// directives of [`PublishOptions`], field for field.
pub struct PublishRequest {
    /// The destination.
    pub url: PublishRequestUrl,
    /// The message body, sent unchanged; `None` sends a bodyless request.
    pub body: Option<Vec<u8>>,
    /// Pass-through headers, as in [`PublishOptions::headers`].
    pub headers: Option<Vec<(String, String)>>,
    /// Delay in seconds, as in [`PublishOptions::delay`].
    pub delay: Option<u32>,
    /// Not-before Unix timestamp, as in [`PublishOptions::not_before`].
    pub not_before: Option<u32>,
    /// Deduplication id, as in [`PublishOptions::deduplication_id`].
    pub deduplication_id: Option<String>,
    /// Content-based deduplication, as in
    /// [`PublishOptions::content_based_deduplication`].
    pub content_based_deduplication: Option<bool>,
    /// Retry count, as in [`PublishOptions::retries`].
    pub retries: Option<u32>,
    /// Callback URL, as in [`PublishOptions::callback`].
    pub callback: Option<String>,
    /// Override method, as in [`PublishOptions::method`].
    pub method: Option<String>,
}

impl PublishRequest {
    /// A request to the given destination with no body and no directives.
    pub fn new(url: PublishRequestUrl) -> (r: Self)
        ensures
            r.url == url,
            r.body is None,
            r.headers is None,
            r.delay is None,
            r.not_before is None,
            r.deduplication_id is None,
            r.content_based_deduplication is None,
            r.retries is None,
            r.callback is None,
            r.method is None,
    {
        Self {
            url,
            body: None,
            headers: None,
            delay: None,
            not_before: None,
            deduplication_id: None,
            content_based_deduplication: None,
            retries: None,
            callback: None,
            method: None,
        }
    }

    /// The delivery directives of this request, as a
    /// [`PublishOptions`] value; the destination and body are returned
    /// alongside.
    pub fn into_parts(self) -> (r: (PublishRequestUrl, Option<Vec<u8>>, PublishOptions))
        ensures
            r.0 == self.url,
            r.1 == self.body,
            r.2 == (PublishOptions {
                headers: self.headers,
                delay: self.delay,
                not_before: self.not_before,
                deduplication_id: self.deduplication_id,
                content_based_deduplication: self.content_based_deduplication,
                retries: self.retries,
                callback: self.callback,
                method: self.method,
            }),
    {
        let PublishRequest {
            url,
            body,
            headers,
            delay,
            not_before,
            deduplication_id,
            content_based_deduplication,
            retries,
            callback,
            method,
        } = self;
        (
            url,
            body,
            PublishOptions {
                headers,
                delay,
                not_before,
                deduplication_id,
                content_based_deduplication,
                retries,
                callback,
                method,
            },
        )
    }
}

/// The normalized per-target outcome of a publish.
///
/// A successful enqueue carries a message id and no error; a deduplicated
/// message may carry `deduplicated: true` with no error; a service-reported
/// per-target failure carries an error string. Such a failure is data, not
/// an error of the call itself.
#[derive(Debug, Clone, PartialEq, Eq)]
pub struct QstashResponse {
    /// The id of the enqueued message.
    pub message_id: Option<String>,
    /// The destination URL, echoed by the service.
    pub url: Option<String>,
    /// A service-reported per-target error.
    pub error: Option<String>,
    /// Whether the message was dropped as a duplicate.
    pub deduplicated: Option<bool>,
}

impl QstashResponse {
    /// Whether this outcome reports a per-target failure: a present
    /// error is authoritative, whatever else the record carries.
    pub fn is_failure(&self) -> (r: bool)
        ensures
            r == (self.error is Some),
    {
        self.error.is_some()
    }
}

} // verus!
