//! The client: configuration, the publish pipeline, and the read-side
//! endpoints (events, message lookup and cancellation, dead-letter
//! queue).
//!
//! The client prepares requests and decodes responses; it performs no I/O
//! of its own. A caller sends each prepared request over the client's
//! HTTP handle and passes the response body back to the matching decode
//! function.

use vstd::prelude::*;

pub mod dead_letter_queue;
pub mod decode;
pub mod destination;
pub mod error;
pub mod events;
pub mod headers;
pub mod json;
pub mod messages;
pub mod request;
pub mod text;
pub mod transport;

pub use dead_letter_queue::{DlqMessage, DlqRequest, DlqResponse};
pub use decode::decode_publish_response;
pub use error::{OptionField, PublishFailure, QStashError};
pub use events::{Event, EventRequest, GetEventsResponse, State};
pub use headers::generate_headers;
pub use messages::Message;
pub use request::{
    DecodeMode, PublishOptions, PublishRequest, PublishRequestUrl, QstashResponse, Version,
};

use crate::client::request::spec_default_options;

use crate::client::destination::{publish_path, spec_publish_path};
use crate::client::headers::{
    ensure_header, has_header, header_view, is_valid_header_value, spec_generate_headers,
    valid_header_value,
};
use crate::client::transport::{join_url, joined_url, normalized_url, parse_base_url};

verus! {

/// The authorization header value that carries a token.
pub open spec fn spec_bearer(token: Seq<char>) -> Seq<char> {
    "Bearer "@ + token
}

/// The base address used when the caller names none.
pub open spec fn spec_base_choice(base_url: Option<&str>) -> Seq<char> {
    match base_url {
        Some(s) => s@,
        None => "https://qstash.upstash.io"@,
    }
}

/// The version path segment used: `v1` on request, else `v2`.
pub open spec fn spec_version_choice(version: Option<Version>) -> Seq<char> {
    match version {
        Some(Version::V1) => "v1"@,
        _ => "v2"@,
    }
}

/// A client of the service: the authorization header value to carry on
/// every request, the base address, and the version path segment. The
/// caller equips it with an HTTP transport; the client itself performs
/// no I/O.
pub struct Client {
    /// The value of the authorization header sent on every request.
    pub auth_header: String,
    /// The base address, in its parsed, re-serialized form.
    pub base_url: String,
    /// The version path segment, `v1` or `v2`.
    pub version: String,
}

/// A publish request made ready to send: the full request URL, the
/// encoded header set, the body, and how the response must be decoded.
pub struct PreparedPublish {
    /// The full request URL.
    pub url: String,
    /// The encoded header set.
    pub headers: Vec<(String, String)>,
    /// The body, unchanged from the request; `None` sends no body.
    pub body: Option<Vec<u8>>,
    /// How the response body must be decoded.
    pub mode: DecodeMode,
}

/// The delivery directives of a publish request, as an options value.
pub open spec fn spec_options_of(request: PublishRequest) -> PublishOptions {
    PublishOptions {
        headers: request.headers,
        delay: request.delay,
        not_before: request.not_before,
        deduplication_id: request.deduplication_id,
        content_based_deduplication: request.content_based_deduplication,
        retries: request.retries,
        callback: request.callback,
        method: request.method,
    }
}

/// What preparing a publish yields: the path suffix of the destination,
/// resolved against the base address, and the encoded header set — or the
/// first failure along that way. A destination whose path does not
/// resolve against the base address is an invalid destination.
pub open spec fn spec_prepare_outcome(
    base: Seq<char>,
    version: Seq<char>,
    dest: PublishRequestUrl,
    options: Result<Seq<(Seq<char>, Seq<char>)>, PublishFailure>,
) -> Result<(Seq<char>, Seq<(Seq<char>, Seq<char>)>), PublishFailure> {
    match joined_url(base, spec_publish_path(version, dest)) {
        None => Err(PublishFailure::InvalidDestination),
        Some(full) => match options {
            Err(e) => Err(e),
            Ok(hs) => Ok((full, hs)),
        },
    }
}

/// The header set of the JSON convenience path: the options run through
/// the same encoder as the raw path (absent options encode as the
/// defaults, so the method directive is still sent), and a JSON content
/// type is appended unless the caller already named one. The appended
/// pair stands at the end of the set; a caller's own content type keeps
/// its place.
pub open spec fn spec_json_headers(options: Option<PublishOptions>) -> Result<
    Seq<(Seq<char>, Seq<char>)>,
    PublishFailure,
> {
    let base = spec_generate_headers(
        match options {
            None => spec_default_options(),
            Some(o) => o,
        },
    );
    match base {
        Err(e) => Err(e),
        Ok(hs) => Ok(
            if has_header(hs, "Content-Type"@) {
                hs
            } else {
                hs.push(("Content-Type"@, "application/json"@))
            },
        ),
    }
}

/// Law: the JSON convenience path encodes options exactly as the raw
/// path does — absent options stand for the defaults, and once the
/// caller's own headers name a content type, the two header sets are one
/// and the same.
pub proof fn lemma_json_path_matches_raw_path(o: PublishOptions)
    ensures
        (spec_generate_headers(o) matches Ok(hs) && has_header(hs, "Content-Type"@))
            ==> spec_json_headers(Some(o)) == spec_generate_headers(o),
        spec_json_headers(None) == spec_json_headers(Some(spec_default_options())),
{
}

impl Client {
    /// A client for the service at `base_url` (the hosted service when
    /// `None`), under `version` (`v2` when `None`), authorized by
    /// `token`.
    ///
    /// Fails with a token error exactly when the token cannot stand in an
    /// authorization header value, and with an invalid-URL error exactly
    /// when the base address does not parse as an absolute URL.
    pub fn new(token: &str, base_url: Option<&str>, version: Option<Version>) -> (r: Result<
        Client,
        QStashError,
    >)
        ensures
            r == Err::<Client, _>(QStashError::TokenError) <==> !valid_header_value(
                spec_bearer(token@),
            ),
            r == Err::<Client, _>(QStashError::InvalidUrl) <==> valid_header_value(
                spec_bearer(token@),
            ) && normalized_url(spec_base_choice(base_url)) is None,
            r matches Err(e) ==> (e == QStashError::TokenError || e == QStashError::InvalidUrl),
            r matches Ok(c) ==> valid_header_value(spec_bearer(token@)) && c.auth_header@
                == spec_bearer(token@) && normalized_url(spec_base_choice(base_url)) == Some(
                c.base_url@,
            ) && c.version@ == spec_version_choice(version),
    {
        let mut auth = String::from_str("Bearer ");
        auth.append(token);
        if !is_valid_header_value(auth.as_str()) {
            return Err(QStashError::TokenError);
        }
        let version = match version {
            Some(Version::V1) => String::from_str("v1"),
            _ => String::from_str("v2"),
        };
        let base = match base_url {
            Some(b) => b,
            None => "https://qstash.upstash.io",
        };
        let normalized = match parse_base_url(base) {
            Some(u) => u,
            None => {
                return Err(QStashError::InvalidUrl);
            },
        };
        Ok(Client { auth_header: auth, base_url: normalized, version })
    }

    /// Makes a publish request ready to send: resolves the destination
    /// into the full request URL, encodes the delivery options as the
    /// header set, and fixes the decode mode from the destination kind.
    /// The body is carried unchanged.
    pub fn prepare_publish(&self, request: PublishRequest) -> (r: Result<
        PreparedPublish,
        PublishFailure,
    >)
        ensures
            ({
                let outcome = spec_prepare_outcome(
                    self.base_url@,
                    self.version@,
                    request.url,
                    spec_generate_headers(spec_options_of(request)),
                );
                match r {
                    Ok(p) => outcome matches Ok(o) && p.url@ == o.0 && header_view(p.headers@)
                        == o.1 && p.body == request.body && p.mode
                        == request.url.spec_decode_mode(),
                    Err(e) => outcome == Err::<(Seq<char>, Seq<(Seq<char>, Seq<char>)>), _>(e),
                }
            }),
    {
        let (url, body, options) = request.into_parts();
        let path = publish_path(self.version.as_str(), &url);
        let full = match join_url(self.base_url.as_str(), path.as_str()) {
            Some(u) => u,
            None => {
                return Err(PublishFailure::InvalidDestination);
            },
        };
        let mode = url.decode_mode();
        let headers = match generate_headers(options) {
            Ok(h) => h,
            Err(e) => {
                return Err(e);
            },
        };
        Ok(PreparedPublish { url: full, headers, body, mode })
    }

    /// Makes a JSON publish ready to send: as [`Client::prepare_publish`],
    /// with the already-serialized JSON text as the body. The options run
    /// through the same header encoder as the raw path — without options
    /// the defaults are encoded, so the method directive is still sent —
    /// and a JSON content type is appended at the end of the set unless
    /// the caller named one, whose own placement is then kept.
    pub fn prepare_publish_json(
        &self,
        url: PublishRequestUrl,
        body_json: String,
        options: Option<PublishOptions>,
    ) -> (r: Result<PreparedPublish, PublishFailure>)
        ensures
            ({
                let outcome = spec_prepare_outcome(
                    self.base_url@,
                    self.version@,
                    url,
                    spec_json_headers(options),
                );
                match r {
                    Ok(p) => outcome matches Ok(o) && p.url@ == o.0 && header_view(p.headers@)
                        == o.1 && (p.body matches Some(b) && b@ == vstd::utf8::encode_utf8(
                        body_json@,
                    )) && p.mode == url.spec_decode_mode(),
                    Err(e) => outcome == Err::<(Seq<char>, Seq<(Seq<char>, Seq<char>)>), _>(e),
                }
            }),
    {
        let path = publish_path(self.version.as_str(), &url);
        let full = match join_url(self.base_url.as_str(), path.as_str()) {
            Some(u) => u,
            None => {
                return Err(PublishFailure::InvalidDestination);
            },
        };
        let mode = url.decode_mode();
        let opts = match options {
            None => PublishOptions::default(),
            Some(o) => o,
        };
        let mut headers: Vec<(String, String)> = match generate_headers(opts) {
            Ok(h) => h,
            Err(e) => {
                return Err(e);
            },
        };
        ensure_header(
            &mut headers,
            String::from_str("Content-Type"),
            String::from_str("application/json"),
        );
        let body = body_json.as_str().as_bytes_vec();
        Ok(PreparedPublish { url: full, headers, body: Some(body), mode })
    }
}

} // verus!
