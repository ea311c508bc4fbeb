//! The ADT HTTP client's decisions: request URLs, which statuses count as
//! success, when to refresh the CSRF token, and how response bodies become
//! text.
use vstd::prelude::*;

use crate::errors::AdtClientError;
use crate::json::{spec_as_str, spec_get, JsonValue};
use crate::text::{
    decimal, decimal_string, eq_ignore_case, has_prefix, lower_seq, owned, starts_with,
    strip_start, strip_start_char, to_chars,
};
use crate::types::AdtHttpConfig;
use crate::xml::opt_text;

verus! {

/// The serialization of the URL that `text` parses to, `None` when `text`
/// is no valid absolute URL (`url::Url::parse`).
pub uninterp spec fn url_parsed(text: Seq<char>) -> Option<Seq<char>>;

/// The serialization of `input` resolved against the URL `base`, `None`
/// when `base` or the result is no valid URL (`Url::join`).
pub uninterp spec fn url_joined(base: Seq<char>, input: Seq<char>) -> Option<Seq<char>>;

/// The serialization of `url` with the form-encoded pair `key=value`
/// appended to its query (`Url::query_pairs_mut().append_pair`).
pub uninterp spec fn url_with_pair(url: Seq<char>, key: Seq<char>, value: Seq<char>) -> Seq<char>;

/// Parses an absolute URL with `url::Url::parse` and gives back its
/// serialization. Claimed: the outcome is a function of `text` alone.
#[verifier::external_body]
fn parse_url(text: &str) -> (r: Result<String, url::ParseError>)
    ensures
        (r is Ok) == (url_parsed(text@) is Some),
        r matches Ok(s) ==> url_parsed(text@) == Some(s@),
{
    url::Url::parse(text).map(|u| u.to_string())
}

/// Resolves `input` against the URL `base` with `url::Url::join` (after
/// parsing `base` with `Url::parse`) and gives back the serialization.
/// Claimed: the outcome is a function of `base` and `input` alone.
#[verifier::external_body]
fn join_url(base: &str, input: &str) -> (r: Result<String, url::ParseError>)
    ensures
        (r is Ok) == (url_joined(base@, input@) is Some),
        r matches Ok(s) ==> url_joined(base@, input@) == Some(s@),
{
    url::Url::parse(base).and_then(|b| b.join(input)).map(|u| u.to_string())
}

/// Appends `key=value` to the query of `url` with
/// `Url::query_pairs_mut().append_pair` and gives back the serialization;
/// text that does not parse as a URL comes back unchanged. Claimed: the
/// result is a function of the three arguments alone.
#[verifier::external_body]
fn append_query_pair(url: &str, key: &str, value: &str) -> (r: String)
    ensures
        r@ == url_with_pair(url@, key@, value@),
{
    match url::Url::parse(url) {
        Ok(mut parsed) => {
            parsed.query_pairs_mut().append_pair(key, value);
            parsed.to_string()
        },
        Err(_) => url.to_owned(),
    }
}

/// The base URL of a configuration: its `base_url` with a `/` appended when
/// it does not end with one.
pub open spec fn normalized_base(base: Seq<char>) -> Seq<char> {
    if base.len() > 0 && base.last() == '/' {
        base
    } else {
        base.push('/')
    }
}

/// `url` with the SAP client and language of `config` appended to its
/// query, in that order, each only when configured.
pub open spec fn with_sap_params(config: AdtHttpConfig, url: Seq<char>) -> Seq<char> {
    let with_client = match config.sap_client {
        Some(c) => url_with_pair(url, "sap-client"@, c@),
        None => url,
    };
    match config.sap_language {
        Some(l) => url_with_pair(with_client, "sap-language"@, l@),
        None => with_client,
    }
}

/// `path` is an absolute HTTP(S) URL rather than a path on the server.
pub open spec fn is_absolute_http(path: Seq<char>) -> bool {
    has_prefix(path, "http://"@) || has_prefix(path, "https://"@)
}

/// The URL that `path` resolves to against `base`, before the SAP query
/// parameters: an absolute HTTP(S) URL is parsed as it is, any other path
/// is joined to the base without its leading slashes.
pub open spec fn resolved_url(base: Seq<char>, path: Seq<char>) -> Option<Seq<char>> {
    if is_absolute_http(path) {
        url_parsed(path)
    } else {
        url_joined(base, strip_start_char(path, '/'))
    }
}

/// The ADT client's configuration and parsed base URL.
#[derive(Clone, Debug)]
pub struct AdtClient {
    config: AdtHttpConfig,
    base_url: String,
}

impl AdtClient {
    /// The configuration this client was made with.
    pub closed spec fn spec_config(&self) -> AdtHttpConfig {
        self.config
    }

    /// The serialization of the client's base URL.
    pub closed spec fn spec_base_url(&self) -> Seq<char> {
        self.base_url@
    }

    /// A client for `config`: its base URL, with a trailing `/` added when
    /// missing, must parse as an absolute URL.
    pub fn new(config: AdtHttpConfig) -> (r: Result<Self, AdtClientError>)
        ensures
            (r is Ok) == (url_parsed(normalized_base(config.base_url@)) is Some),
            r matches Ok(c) ==> c.spec_config() == config && Some(c.spec_base_url()) == url_parsed(
                normalized_base(config.base_url@),
            ),
            r matches Err(e) ==> (e matches AdtClientError::InvalidBaseUrl { base_url, .. }
                && base_url@ == normalized_base(config.base_url@)),
    {
        let mut normalized = config.base_url.clone();
        let chars = to_chars(normalized.as_str());
        if !(chars.len() > 0 && chars[chars.len() - 1] == '/') {
            crate::text::push_char(&mut normalized, '/');
        }
        match parse_url(normalized.as_str()) {
            Ok(base_url) => Ok(AdtClient { config, base_url }),
            Err(source) => Err(AdtClientError::InvalidBaseUrl { base_url: normalized, source }),
        }
    }

    /// The configuration this client was made with.
    pub fn config(&self) -> (r: &AdtHttpConfig)
        ensures
            *r == self.spec_config(),
    {
        &self.config
    }

    /// The serialization of the client's base URL.
    pub fn base_url(&self) -> (r: &str)
        ensures
            r@ == self.spec_base_url(),
    {
        self.base_url.as_str()
    }

    /// Appends the configured SAP client and language to the query of `url`.
    pub fn apply_sap_query_params(&self, url: String) -> (r: String)
        ensures
            r@ == with_sap_params(self.spec_config(), url@),
    {
        let mut url = url;
        match &self.config.sap_client {
            Some(client) => {
                url = append_query_pair(url.as_str(), "sap-client", client.as_str());
            },
            None => {},
        }
        match &self.config.sap_language {
            Some(language) => {
                url = append_query_pair(url.as_str(), "sap-language", language.as_str());
            },
            None => {},
        }
        url
    }

    /// The URL of `path`: an absolute HTTP(S) URL as it is, any other path
    /// relative to the base URL without its leading slashes; then the SAP
    /// query parameters are appended. A path that does not resolve is
    /// refused, naming the path.
    pub fn build_url(&self, path: &str) -> (r: Result<String, AdtClientError>)
        ensures
            (r is Ok) == (resolved_url(self.spec_base_url(), path@) is Some),
            r matches Ok(u) ==> (resolved_url(self.spec_base_url(), path@) matches Some(base)
                && u@ == with_sap_params(self.spec_config(), base)),
            r matches Err(e) ==> (e matches AdtClientError::InvalidPath { path: p, .. } && p@
                == path@),
    {
        let resolved = if starts_with(path, "http://") || starts_with(path, "https://") {
            parse_url(path)
        } else {
            let trimmed = strip_start(path, '/');
            join_url(self.base_url.as_str(), trimmed.as_str())
        };
        match resolved {
            Ok(url) => Ok(self.apply_sap_query_params(url)),
            Err(source) => Err(AdtClientError::InvalidPath { path: owned(path), source }),
        }
    }

    /// The URL of a repository search: the search endpoint with the query
    /// and, when given, the result limit appended after the SAP parameters.
    pub fn search_url(&self, query: &str, max_results: Option<u32>) -> (r: Result<
        String,
        AdtClientError,
    >)
        ensures
            (r is Ok) == (resolved_url(
                self.spec_base_url(),
                self.spec_config().endpoints.search_objects_path@,
            ) is Some),
            r matches Ok(u) ==> (resolved_url(
                self.spec_base_url(),
                self.spec_config().endpoints.search_objects_path@,
            ) matches Some(base) && u@ == {
                let with_query = url_with_pair(
                    with_sap_params(self.spec_config(), base),
                    "query"@,
                    query@,
                );
                match max_results {
                    Some(limit) => url_with_pair(with_query, "maxResults"@, decimal(limit as nat)),
                    None => with_query,
                }
            }),
    {
        let url = self.build_url(self.config.endpoints.search_objects_path.as_str())?;
        let url = append_query_pair(url.as_str(), "query", query);
        match max_results {
            Some(limit) => {
                let text = decimal_string(limit as u64);
                Ok(append_query_pair(url.as_str(), "maxResults", text.as_str()))
            },
            None => Ok(url),
        }
    }
}

/// The ADT operations, each with the statuses it accepts as success.
#[derive(Clone, Copy, Debug, PartialEq, Eq, Structural)]
pub enum AdtOperation {
    Ping,
    SearchObjects,
    GetSource,
    GetText,
    PostText,
    PutText,
    DeleteText,
    UpdateSource,
    FetchCsrfToken,
}

/// The statuses that `op` accepts as success.
pub open spec fn spec_accepted_statuses(op: AdtOperation) -> Seq<u16> {
    match op {
        AdtOperation::Ping => seq![200u16, 204u16],
        AdtOperation::SearchObjects => seq![200u16],
        AdtOperation::GetSource => seq![200u16],
        AdtOperation::GetText => seq![200u16],
        AdtOperation::PostText => seq![200u16, 201u16, 202u16, 204u16],
        AdtOperation::PutText => seq![200u16, 201u16, 202u16, 204u16],
        AdtOperation::DeleteText => seq![200u16, 202u16, 204u16],
        AdtOperation::UpdateSource => seq![200u16, 201u16, 204u16],
        AdtOperation::FetchCsrfToken => seq![200u16, 204u16],
    }
}

/// The name of `op` in error reports.
pub open spec fn spec_operation_name(op: AdtOperation) -> Seq<char> {
    match op {
        AdtOperation::Ping => "ping"@,
        AdtOperation::SearchObjects => "search_objects"@,
        AdtOperation::GetSource => "get_source"@,
        AdtOperation::GetText => "get_text"@,
        AdtOperation::PostText => "post_text"@,
        AdtOperation::PutText => "put_text"@,
        AdtOperation::DeleteText => "delete_text"@,
        AdtOperation::UpdateSource => "update_source"@,
        AdtOperation::FetchCsrfToken => "fetch_csrf_token"@,
    }
}

impl AdtOperation {
    /// The statuses this operation accepts as success.
    pub fn accepted_statuses(&self) -> (r: Vec<u16>)
        ensures
            r@ == spec_accepted_statuses(*self),
    {
        let r: Vec<u16> = match self {
            AdtOperation::Ping => vec![200, 204],
            AdtOperation::SearchObjects => vec![200],
            AdtOperation::GetSource => vec![200],
            AdtOperation::GetText => vec![200],
            AdtOperation::PostText => vec![200, 201, 202, 204],
            AdtOperation::PutText => vec![200, 201, 202, 204],
            AdtOperation::DeleteText => vec![200, 202, 204],
            AdtOperation::UpdateSource => vec![200, 201, 204],
            AdtOperation::FetchCsrfToken => vec![200, 204],
        };
        assert(r@ =~= spec_accepted_statuses(*self));
        r
    }

    /// The name of this operation in error reports.
    pub fn name(&self) -> (r: &'static str)
        ensures
            r@ == spec_operation_name(*self),
    {
        match self {
            AdtOperation::Ping => "ping",
            AdtOperation::SearchObjects => "search_objects",
            AdtOperation::GetSource => "get_source",
            AdtOperation::GetText => "get_text",
            AdtOperation::PostText => "post_text",
            AdtOperation::PutText => "put_text",
            AdtOperation::DeleteText => "delete_text",
            AdtOperation::UpdateSource => "update_source",
            AdtOperation::FetchCsrfToken => "fetch_csrf_token",
        }
    }
}

/// Checks a response status against what `op` accepts; any other status is
/// reported with the operation's name and the response body.
pub fn ensure_success(op: AdtOperation, status: u16, body: String) -> (r: Result<
    (),
    AdtClientError,
>)
    ensures
        (r is Ok) == spec_accepted_statuses(op).contains(status),
        r matches Err(e) ==> (e matches AdtClientError::UnexpectedStatus {
            operation,
            status: s,
            body: b,
        } && operation@ == spec_operation_name(op) && s == status && b@ == body@),
{
    let accepted = op.accepted_statuses();
    let mut i: usize = 0;
    while i < accepted.len()
        invariant
            i <= accepted@.len(),
            accepted@ == spec_accepted_statuses(op),
            forall|k: int| 0 <= k < i ==> accepted@[k] != status,
        decreases accepted@.len() - i,
    {
        if accepted[i] == status {
            assert(accepted@[i as int] == status);
            return Ok(());
        }
        i += 1;
    }
    Err(AdtClientError::UnexpectedStatus { operation: op.name().to_owned(), status, body })
}

/// A response asks for a fresh CSRF token: status 403 with an
/// `x-csrf-token` header that reads `required` in any letter case.
pub open spec fn spec_should_retry_with_csrf(status: u16, csrf_header: Option<Seq<char>>) -> bool {
    status == 403 && match csrf_header {
        Some(h) => lower_seq(h) == lower_seq("required"@),
        None => false,
    }
}

/// Whether a response asks for a fresh CSRF token.
pub fn should_retry_with_csrf(status: u16, csrf_header: Option<&str>) -> (r: bool)
    ensures
        r == spec_should_retry_with_csrf(status, opt_view(csrf_header)),
{
    if status != 403 {
        return false;
    }
    match csrf_header {
        Some(h) => eq_ignore_case(h, "required"),
        None => false,
    }
}

/// Where a request protected by a CSRF token stands.
#[derive(Clone, Copy, Debug, PartialEq, Eq, Structural)]
pub enum CsrfPhase {
    /// Sent with the cached token, if any.
    FirstAttempt,
    /// Sent again with a freshly fetched token.
    AfterRefresh,
}

/// What to do with the response to a request protected by a CSRF token.
#[derive(Clone, Copy, Debug, PartialEq, Eq, Structural)]
pub enum CsrfAction {
    /// Hand the response to the caller.
    Finish,
    /// Fetch a fresh token, cache it and send the request again with it.
    RefreshAndResend,
}

/// The header value as text, when present.
pub open spec fn opt_view(header: Option<&str>) -> Option<Seq<char>> {
    match header {
        Some(h) => Some(h@),
        None => None,
    }
}

/// The next step of a request protected by a CSRF token, given the status
/// and `x-csrf-token` header of the response to the attempt in `phase`.
pub open spec fn spec_next_csrf_action(
    phase: CsrfPhase,
    status: u16,
    csrf_header: Option<Seq<char>>,
) -> CsrfAction {
    if phase == CsrfPhase::FirstAttempt && spec_should_retry_with_csrf(status, csrf_header) {
        CsrfAction::RefreshAndResend
    } else {
        CsrfAction::Finish
    }
}

/// The next step of a request protected by a CSRF token: only a first
/// attempt that the server refused for want of a token is sent again.
pub fn next_csrf_action(phase: CsrfPhase, status: u16, csrf_header: Option<&str>) -> (r: CsrfAction)
    ensures
        r == spec_next_csrf_action(phase, status, opt_view(csrf_header)),
{
    match phase {
        CsrfPhase::FirstAttempt => if should_retry_with_csrf(status, csrf_header) {
            CsrfAction::RefreshAndResend
        } else {
            CsrfAction::Finish
        },
        CsrfPhase::AfterRefresh => CsrfAction::Finish,
    }
}

/// A request is sent at most twice: whatever the server answers to the
/// resent request, the next step is to finish; and a first attempt is
/// resent exactly when the server asked for a token.
pub proof fn law_csrf_resends_at_most_once(
    first_status: u16,
    first_header: Option<Seq<char>>,
    second_status: u16,
    second_header: Option<Seq<char>>,
)
    ensures
        spec_next_csrf_action(CsrfPhase::AfterRefresh, second_status, second_header)
            == CsrfAction::Finish,
        (spec_next_csrf_action(CsrfPhase::FirstAttempt, first_status, first_header)
            == CsrfAction::RefreshAndResend) == spec_should_retry_with_csrf(
            first_status,
            first_header,
        ),
{
}

/// The token of a token-fetch response: the `x-csrf-token` header, which
/// must be present and non-empty.
pub fn csrf_token_from_header(header: Option<String>) -> (r: Result<String, AdtClientError>)
    ensures
        match header {
            Some(h) if h@.len() > 0 => (r matches Ok(t) && t@ == h@),
            _ => r matches Err(AdtClientError::MissingCsrfToken),
        },
{
    match header {
        Some(h) => {
            if to_chars(h.as_str()).len() > 0 {
                Ok(h)
            } else {
                Err(AdtClientError::MissingCsrfToken)
            }
        },
        None => Err(AdtClientError::MissingCsrfToken),
    }
}

/// Where a request protected by a CSRF token stands in its exchange with
/// the server.
#[derive(Clone, Copy, Debug, PartialEq, Eq, Structural)]
pub enum CsrfStage {
    /// Sent with the cached token, if any; waiting for the answer.
    FirstAttempt,
    /// Refused for want of a token; waiting for a fresh one.
    Fetching,
    /// Sent again with the fresh token; waiting for the answer.
    Resent,
    /// Over: the last answer or an error has been handed on.
    Done,
}

/// A request protected by a CSRF token: the client's cached token and the
/// stage of the exchange.
pub struct CsrfExchange {
    pub token: Option<String>,
    pub stage: CsrfStage,
}

/// What happened to the last step of a CSRF exchange.
pub enum CsrfEvent {
    /// The server answered the request with this status and
    /// `x-csrf-token` header.
    Answered { status: u16, csrf_header: Option<String> },
    /// The token fetch was answered with an accepted status and this
    /// `x-csrf-token` header.
    Fetched { csrf_header: Option<String> },
    /// Sending, or the token fetch, failed with this error.
    Failed(AdtClientError),
}

/// What the client does next in a CSRF exchange.
pub enum CsrfCommand {
    /// Send the request, with this `x-csrf-token` header if any.
    Send { csrf_token: Option<String> },
    /// Fetch a token: `GET` the fetch path with `x-csrf-token: fetch`.
    FetchToken,
    /// Store `token` as the cached token and send the request again with it.
    Resend { token: String },
    /// Hand the last answer to the caller.
    Deliver,
    /// End the exchange with this error; nothing more is sent.
    Fail(AdtClientError),
}

impl CsrfExchange {
    /// The events that the exchange waits for in its stage: an answer to a
    /// sent request, the outcome of a token fetch, or a failure.
    pub open spec fn expects(self, event: CsrfEvent) -> bool {
        match self.stage {
            CsrfStage::FirstAttempt | CsrfStage::Resent => !(event is Fetched),
            CsrfStage::Fetching => !(event is Answered),
            CsrfStage::Done => false,
        }
    }

    /// Opens the exchange: the request goes out with the cached token.
    pub fn start(cached: Option<String>) -> (r: (CsrfExchange, CsrfCommand))
        ensures
            r.0.stage == CsrfStage::FirstAttempt,
            opt_text(r.0.token) == opt_text(cached),
            r.1 matches CsrfCommand::Send { csrf_token } && opt_text(csrf_token) == opt_text(cached),
    {
        let sent = match &cached {
            Some(t) => Some(t.clone()),
            None => None,
        };
        (CsrfExchange { token: cached, stage: CsrfStage::FirstAttempt }, CsrfCommand::Send { csrf_token: sent })
    }

    /// The next stage and command after `event`. A first answer that asks
    /// for a token leads to a fetch; a fetched token is cached and the
    /// request is sent once more with it; a missing token or a failure ends
    /// the exchange with an error and no further request; any other answer
    /// is delivered.
    pub fn step(self, event: CsrfEvent) -> (r: (CsrfExchange, CsrfCommand))
        requires
            self.expects(event),
        ensures
            match event {
                CsrfEvent::Failed(e) => {
                    &&& r.0.stage == CsrfStage::Done
                    &&& opt_text(r.0.token) == opt_text(self.token)
                    &&& r.1 == CsrfCommand::Fail(e)
                },
                CsrfEvent::Answered { status, csrf_header } => {
                    &&& opt_text(r.0.token) == opt_text(self.token)
                    &&& if self.stage == CsrfStage::FirstAttempt && spec_should_retry_with_csrf(
                        status,
                        opt_text(csrf_header),
                    ) {
                        r.0.stage == CsrfStage::Fetching && r.1 is FetchToken
                    } else {
                        r.0.stage == CsrfStage::Done && r.1 is Deliver
                    }
                },
                CsrfEvent::Fetched { csrf_header } => match csrf_header {
                    Some(h) if h@.len() > 0 => {
                        &&& r.0.stage == CsrfStage::Resent
                        &&& opt_text(r.0.token) == Some(h@)
                        &&& r.1 matches CsrfCommand::Resend { token } && token@ == h@
                    },
                    _ => {
                        &&& r.0.stage == CsrfStage::Done
                        &&& opt_text(r.0.token) == opt_text(self.token)
                        &&& r.1 matches CsrfCommand::Fail(AdtClientError::MissingCsrfToken)
                    },
                },
            },
    {
        let CsrfExchange { token, stage } = self;
        match event {
            CsrfEvent::Failed(e) => (CsrfExchange { token, stage: CsrfStage::Done }, CsrfCommand::Fail(e)),
            CsrfEvent::Answered { status, csrf_header } => {
                let phase = if stage == CsrfStage::FirstAttempt {
                    CsrfPhase::FirstAttempt
                } else {
                    CsrfPhase::AfterRefresh
                };
                match next_csrf_action(phase, status, opt_as_str(&csrf_header)) {
                    CsrfAction::RefreshAndResend => (
                        CsrfExchange { token, stage: CsrfStage::Fetching },
                        CsrfCommand::FetchToken,
                    ),
                    CsrfAction::Finish => (CsrfExchange { token, stage: CsrfStage::Done }, CsrfCommand::Deliver),
                }
            },
            CsrfEvent::Fetched { csrf_header } => match csrf_token_from_header(csrf_header) {
                Ok(t) => {
                    let cached = t.clone();
                    (CsrfExchange { token: Some(cached), stage: CsrfStage::Resent }, CsrfCommand::Resend { token: t })
                },
                Err(e) => (CsrfExchange { token, stage: CsrfStage::Done }, CsrfCommand::Fail(e)),
            },
        }
    }
}

/// The text of an optional string, borrowed.
fn opt_as_str(o: &Option<String>) -> (r: Option<&str>)
    ensures
        opt_view(r) == opt_text(*o),
{
    match o {
        Some(s) => Some(s.as_str()),
        None => None,
    }
}

/// Decodes UTF-8 bytes with `String::from_utf8`; the error is the decoder's
/// message.
#[verifier::external_body]
pub(crate) fn utf8_string(bytes: Vec<u8>) -> (r: Result<String, String>)
    ensures
        (r is Ok) == vstd::utf8::valid_utf8(bytes@),
        r matches Ok(s) ==> s@ == vstd::utf8::decode_utf8(bytes@),
{
    String::from_utf8(bytes).map_err(|e| e.to_string())
}

/// The text of a response body: empty for an empty body, else the body
/// decoded as UTF-8, which it must be.
pub fn response_to_string(body: Vec<u8>) -> (r: Result<String, AdtClientError>)
    ensures
        body@.len() == 0 ==> (r matches Ok(s) && s@.len() == 0),
        body@.len() > 0 ==> ((r is Ok) == vstd::utf8::valid_utf8(body@)),
        body@.len() > 0 ==> (r matches Ok(s) ==> s@ == vstd::utf8::decode_utf8(body@)),
        r matches Err(e) ==> e is Utf8,
{
    if body.len() == 0 {
        return Ok(String::new());
    }
    match utf8_string(body) {
        Ok(s) => Ok(s),
        Err(message) => Err(AdtClientError::Utf8 { message }),
    }
}

/// A response body is JSON when its content type mentions `json`.
pub fn is_json_content_type(content_type: Option<&str>) -> (r: bool)
    ensures
        r == match content_type {
            Some(t) => crate::text::find_seq(t@, "json"@) is Some,
            None => false,
        },
{
    match content_type {
        Some(t) => crate::text::contains_str(t, "json"),
        None => false,
    }
}

/// The depth to which `extract_source` follows nested `data` members.
pub open spec fn data_depth(value: JsonValue) -> nat
    decreases value,
{
    match spec_get(value, "data"@) {
        Some(inner) => {
            proof {
                lemma_get_smaller(value, "data"@);
            }
            1 + data_depth(inner)
        },
        None => 0,
    }
}

/// The member that `spec_get` finds lies inside the object.
pub proof fn lemma_get_smaller(value: JsonValue, key: Seq<char>)
    ensures
        spec_get(value, key) matches Some(inner) ==> decreases_to!(value => inner),
{
    broadcast use vstd::std_specs::vec::group_vec_axioms;

    if let JsonValue::Object(members) = value {
        if let Some(i) = crate::json::member_index(members@, key) {
            crate::json::lemma_member_index(members@, key);
            assert(decreases_to!(value => members));
            assert(decreases_to!(members => members[i]));
            assert(decreases_to!(members[i] => members[i].1));
        }
    }
}

/// The source text in a JSON source payload: its `source` string, else its
/// `content` string, else (recursively) what its `data` member holds.
pub open spec fn spec_extract_source(value: JsonValue) -> Option<Seq<char>>
    decreases value,
{
    match spec_as_str(spec_get(value, "source"@)) {
        Some(s) => Some(s),
        None => match spec_as_str(spec_get(value, "content"@)) {
            Some(c) => Some(c),
            None => match spec_get(value, "data"@) {
                Some(inner) => {
                    proof {
                        lemma_get_smaller(value, "data"@);
                    }
                    spec_extract_source(inner)
                },
                None => None,
            },
        },
    }
}

/// The source text in a JSON source payload.
pub fn extract_source(value: &JsonValue) -> (r: Option<String>)
    ensures
        match r {
            Some(s) => spec_extract_source(*value) == Some(s@),
            None => spec_extract_source(*value) is None,
        },
    decreases *value,
{
    match value.get("source") {
        Some(v) => match v.as_str() {
            Some(s) => {
                return Some(s.to_owned());
            },
            None => {},
        },
        None => {},
    }
    match value.get("content") {
        Some(v) => match v.as_str() {
            Some(s) => {
                return Some(s.to_owned());
            },
            None => {},
        },
        None => {},
    }
    match value.get("data") {
        Some(inner) => {
            proof {
                lemma_get_smaller(*value, "data"@);
            }
            extract_source(inner)
        },
        None => None,
    }
}

/// The source text of a JSON source payload, which must hold one.
pub fn parse_source_payload(value: &JsonValue) -> (r: Result<String, AdtClientError>)
    ensures
        match r {
            Ok(s) => spec_extract_source(*value) == Some(s@),
            Err(e) => spec_extract_source(*value) is None && (e matches AdtClientError::Protocol(m)
                && m@ == "source payload did not include a `source`/`content` field"@),
        },
{
    match extract_source(value) {
        Some(s) => Ok(s),
        None => Err(
            AdtClientError::Protocol(
                "source payload did not include a `source`/`content` field".to_owned(),
            ),
        ),
    }
}

} // verus!
