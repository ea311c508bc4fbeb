//! Error values of the ADT client, the WebSocket client and the engine.
use vstd::prelude::*;

use crate::text::{append, concat, decimal, decimal_string, has_prefix, owned};
use crate::xml::opt_text;

verus! {

/// The `url` crate's parse error, carried as the cause of an invalid URL.
#[verifier::external_type_specification]
#[verifier::external_body]
pub struct ExUrlParseError(url::ParseError);

/// Failures of the ADT HTTP client.
#[derive(Debug)]
pub enum AdtClientError {
    InvalidBaseUrl { base_url: String, source: url::ParseError },
    InvalidPath { path: String, source: url::ParseError },
    ClientBuild { message: String },
    Http { message: String },
    Json { message: String },
    Utf8 { message: String },
    MissingCsrfToken,
    UnexpectedStatus { operation: String, status: u16, body: String },
    Protocol(String),
}

/// Failures of the WebSocket client.
#[derive(Debug, Clone, PartialEq, Eq)]
pub enum NeuroWsClientError {
    Handshake { message: String },
    InvalidHeader { name: String, message: String },
    Serialize { message: String },
    ConnectionClosed { reason: String },
    ResponseChannelDropped,
    Timeout { timeout_secs: u64 },
}

/// Failures of the engine.
#[derive(Debug)]
pub enum NeuroEngineError {
    Adt(AdtClientError),
    Ws(NeuroWsClientError),
    WsUnavailable,
    SafetyViolation(String),
}

/// Failures of a tool call.
#[derive(Debug)]
pub enum NeuroMcpError {
    UnknownTool(String),
    UnsupportedTool { tool: String },
    InvalidArguments { tool: String, message: String },
    Engine(NeuroEngineError),
    Serialize { message: String },
}

/// The reason phrase that `http::StatusCode` gives a status, `None` for a
/// status without one.
pub uninterp spec fn http_reason_phrase(status: u16) -> Option<Seq<char>>;

/// The canonical reason phrase of a status (`StatusCode::from_u16`, then
/// `canonical_reason`). Claimed: it depends on the status alone; `None`
/// also for a number that is no valid status.
#[verifier::external_body]
fn reason_phrase(status: u16) -> (r: Option<String>)
    ensures
        opt_text(r) == http_reason_phrase(status),
{
    http::StatusCode::from_u16(status).ok().and_then(|s| s.canonical_reason()).map(str::to_owned)
}

/// The text of a URL parse error (its `Display`). Nothing is claimed of
/// the text.
#[verifier::external_body]
fn parse_error_text(e: &url::ParseError) -> (r: String) {
    e.to_string()
}

/// How a status is written in messages: its number and its reason phrase
/// (`<unknown status code>` without one).
pub open spec fn status_text(status: u16) -> Seq<char> {
    decimal(status as nat) + " "@ + match http_reason_phrase(status) {
        Some(p) => p,
        None => "<unknown status code>"@,
    }
}

/// The message of an ADT client error, but for the text of the URL parse
/// error that an invalid URL carries.
pub open spec fn adt_error_message(e: AdtClientError) -> Option<Seq<char>> {
    match e {
        AdtClientError::InvalidBaseUrl { .. } => None,
        AdtClientError::InvalidPath { .. } => None,
        AdtClientError::ClientBuild { message } => Some("failed to build HTTP client: "@ + message@),
        AdtClientError::Http { message } => Some("http request failed: "@ + message@),
        AdtClientError::Json { message } => Some("json serialization/deserialization failed: "@ + message@),
        AdtClientError::Utf8 { message } => Some("response body is not valid UTF-8: "@ + message@),
        AdtClientError::MissingCsrfToken => Some("missing CSRF token in response headers"@),
        AdtClientError::UnexpectedStatus { operation, status, body } => Some(
            operation@ + " failed with status "@ + status_text(status) + ": "@ + body@,
        ),
        AdtClientError::Protocol(m) => Some("protocol error: "@ + m@),
    }
}

/// What is known of the message of an ADT client error: all of it, or,
/// for an invalid URL, all but the URL parse error's text at its end.
pub open spec fn adt_error_known(e: AdtClientError) -> Seq<char> {
    match e {
        AdtClientError::InvalidBaseUrl { base_url, .. } => "invalid base url `"@ + base_url@ + "`: "@,
        AdtClientError::InvalidPath { path, .. } => "invalid path `"@ + path@ + "`: "@,
        _ => match adt_error_message(e) {
            Some(m) => m,
            None => Seq::empty(),
        },
    }
}

/// Every text starts with itself.
proof fn lemma_prefix_self(s: Seq<char>)
    ensures
        has_prefix(s, s),
{
    assert(s.take(s.len() as int) =~= s);
}

/// A text that starts with `q` keeps doing so behind `a`.
proof fn lemma_prefix_behind(a: Seq<char>, b: Seq<char>, q: Seq<char>)
    requires
        has_prefix(b, q),
    ensures
        has_prefix(a + b, a + q),
{
    assert((a + b).take((a + q).len() as int) =~= a + q);
}

impl AdtClientError {
    /// The human-readable message of this error.
    pub fn message(&self) -> (r: String)
        ensures
            adt_error_message(*self) matches Some(m) ==> r@ == m,
            has_prefix(r@, adt_error_known(*self)),
    {
        let r = match self {
            AdtClientError::InvalidBaseUrl { base_url, source } => {
                let mut r = concat("invalid base url `", base_url.as_str());
                append(&mut r, "`: ");
                let ghost known = r@;
                append(&mut r, parse_error_text(source).as_str());
                assert(r@.take(known.len() as int) =~= known);
                r
            },
            AdtClientError::InvalidPath { path, source } => {
                let mut r = concat("invalid path `", path.as_str());
                append(&mut r, "`: ");
                let ghost known = r@;
                append(&mut r, parse_error_text(source).as_str());
                assert(r@.take(known.len() as int) =~= known);
                r
            },
            AdtClientError::ClientBuild { message } => concat("failed to build HTTP client: ", message.as_str()),
            AdtClientError::Http { message } => concat("http request failed: ", message.as_str()),
            AdtClientError::Json { message } => concat("json serialization/deserialization failed: ", message.as_str()),
            AdtClientError::Utf8 { message } => concat("response body is not valid UTF-8: ", message.as_str()),
            AdtClientError::MissingCsrfToken => owned("missing CSRF token in response headers"),
            AdtClientError::UnexpectedStatus { operation, status, body } => {
                let mut r = concat(operation.as_str(), " failed with status ");
                append(&mut r, decimal_string(*status as u64).as_str());
                append(&mut r, " ");
                match reason_phrase(*status) {
                    Some(p) => append(&mut r, p.as_str()),
                    None => append(&mut r, "<unknown status code>"),
                }
                append(&mut r, ": ");
                append(&mut r, body.as_str());
                r
            },
            AdtClientError::Protocol(m) => concat("protocol error: ", m.as_str()),
        };
        proof {
            lemma_prefix_self(r@);
            if let Some(m) = adt_error_message(*self) {
                assert(r@ == m);
                assert(adt_error_known(*self) == m);
            }
        }
        r
    }
}

/// The message of a WebSocket client error.
pub open spec fn ws_error_message(e: NeuroWsClientError) -> Seq<char> {
    match e {
        NeuroWsClientError::Handshake { message } => "websocket handshake failed: "@ + message@,
        NeuroWsClientError::InvalidHeader { name, message } => "invalid websocket header `"@ + name@
            + "`: "@ + message@,
        NeuroWsClientError::Serialize { message } => "failed to serialize websocket message: "@ + message@,
        NeuroWsClientError::ConnectionClosed { reason } => "websocket connection closed: "@ + reason@,
        NeuroWsClientError::ResponseChannelDropped => "response channel dropped before a response was received"@,
        NeuroWsClientError::Timeout { timeout_secs } => "request timed out after "@ + decimal(
            timeout_secs as nat,
        ) + " seconds"@,
    }
}

impl NeuroWsClientError {
    /// The human-readable message of this error.
    pub fn message(&self) -> (r: String)
        ensures
            r@ == ws_error_message(*self),
    {
        match self {
            NeuroWsClientError::Handshake { message } => concat("websocket handshake failed: ", message.as_str()),
            NeuroWsClientError::InvalidHeader { name, message } => {
                let mut r = concat("invalid websocket header `", name.as_str());
                append(&mut r, "`: ");
                append(&mut r, message.as_str());
                r
            },
            NeuroWsClientError::Serialize { message } => concat("failed to serialize websocket message: ", message.as_str()),
            NeuroWsClientError::ConnectionClosed { reason } => concat("websocket connection closed: ", reason.as_str()),
            NeuroWsClientError::ResponseChannelDropped => owned("response channel dropped before a response was received"),
            NeuroWsClientError::Timeout { timeout_secs } => {
                let mut r = concat("request timed out after ", decimal_string(*timeout_secs).as_str());
                append(&mut r, " seconds");
                r
            },
        }
    }
}

/// The message of an engine error, but for the text of a URL parse error
/// that an invalid URL carries.
pub open spec fn engine_error_message(e: NeuroEngineError) -> Option<Seq<char>> {
    match e {
        NeuroEngineError::Adt(a) => match adt_error_message(a) {
            Some(m) => Some("ADT client error: "@ + m),
            None => None,
        },
        NeuroEngineError::Ws(w) => Some("WebSocket client error: "@ + ws_error_message(w)),
        NeuroEngineError::WsUnavailable => Some("WebSocket client is not configured"@),
        NeuroEngineError::SafetyViolation(m) => Some("safety policy violation: "@ + m@),
    }
}

/// What is known of the message of an engine error: all of it, or all but
/// the URL parse error's text at the end of an invalid URL's message.
pub open spec fn engine_error_known(e: NeuroEngineError) -> Seq<char> {
    match e {
        NeuroEngineError::Adt(a) => "ADT client error: "@ + adt_error_known(a),
        _ => match engine_error_message(e) {
            Some(m) => m,
            None => Seq::empty(),
        },
    }
}

impl NeuroEngineError {
    /// The human-readable message of this error.
    pub fn message(&self) -> (r: String)
        ensures
            engine_error_message(*self) matches Some(m) ==> r@ == m,
            has_prefix(r@, engine_error_known(*self)),
    {
        let r = match self {
            NeuroEngineError::Adt(a) => {
                let inner = a.message();
                proof {
                    lemma_prefix_behind("ADT client error: "@, inner@, adt_error_known(*a));
                }
                concat("ADT client error: ", inner.as_str())
            },
            NeuroEngineError::Ws(w) => concat("WebSocket client error: ", w.message().as_str()),
            NeuroEngineError::WsUnavailable => owned("WebSocket client is not configured"),
            NeuroEngineError::SafetyViolation(m) => concat("safety policy violation: ", m.as_str()),
        };
        proof {
            lemma_prefix_self(r@);
        }
        r
    }
}

/// The message of a tool error, but for the text of a URL parse error that
/// an invalid URL carries.
pub open spec fn mcp_error_message(e: NeuroMcpError) -> Option<Seq<char>> {
    match e {
        NeuroMcpError::UnknownTool(t) => Some("unknown tool `"@ + t@ + "`"@),
        NeuroMcpError::UnsupportedTool { tool } => Some(
            "tool `"@ + tool@ + "` is mapped in parity catalog but not implemented in neuro-mcp yet"@,
        ),
        NeuroMcpError::InvalidArguments { tool, message } => Some(
            "invalid arguments for `"@ + tool@ + "`: "@ + message@,
        ),
        NeuroMcpError::Engine(en) => match engine_error_message(en) {
            Some(m) => Some("engine error: "@ + m),
            None => None,
        },
        NeuroMcpError::Serialize { message } => Some("failed to serialize tool response: "@ + message@),
    }
}

/// What is known of the message of a tool error: all of it, or all but the
/// URL parse error's text at the end of an invalid URL's message.
pub open spec fn mcp_error_known(e: NeuroMcpError) -> Seq<char> {
    match e {
        NeuroMcpError::Engine(en) => "engine error: "@ + engine_error_known(en),
        _ => match mcp_error_message(e) {
            Some(m) => m,
            None => Seq::empty(),
        },
    }
}

impl NeuroMcpError {
    /// The human-readable message of this error.
    pub fn message(&self) -> (r: String)
        ensures
            mcp_error_message(*self) matches Some(m) ==> r@ == m,
            has_prefix(r@, mcp_error_known(*self)),
    {
        let r = match self {
            NeuroMcpError::UnknownTool(t) => {
                let mut r = concat("unknown tool `", t.as_str());
                append(&mut r, "`");
                r
            },
            NeuroMcpError::UnsupportedTool { tool } => {
                let mut r = concat("tool `", tool.as_str());
                append(&mut r, "` is mapped in parity catalog but not implemented in neuro-mcp yet");
                r
            },
            NeuroMcpError::InvalidArguments { tool, message } => {
                let mut r = concat("invalid arguments for `", tool.as_str());
                append(&mut r, "`: ");
                append(&mut r, message.as_str());
                r
            },
            NeuroMcpError::Engine(en) => {
                let inner = en.message();
                proof {
                    lemma_prefix_behind("engine error: "@, inner@, engine_error_known(*en));
                }
                concat("engine error: ", inner.as_str())
            },
            NeuroMcpError::Serialize { message } => concat("failed to serialize tool response: ", message.as_str()),
        };
        proof {
            lemma_prefix_self(r@);
        }
        r
    }
}

} // verus!
