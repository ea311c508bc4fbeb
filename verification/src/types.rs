//! The runtime's shared data model: ADT client configuration, request and
//! response records, WebSocket envelopes, safety policy and diagnose reports.
use vstd::prelude::*;

use std::collections::BTreeMap;

use crate::json::JsonValue;

verus! {

/// How the ADT HTTP client authenticates.
#[derive(Clone, Debug, PartialEq, Eq)]
pub enum AdtAuth {
    Basic { username: String, password: String },
    Cookie { cookie: String },
    Anonymous,
}

impl Default for AdtAuth {
    fn default() -> (r: Self)
        ensures
            r == AdtAuth::Anonymous,
    {
        AdtAuth::Anonymous
    }
}

/// Endpoint paths of the ADT service.
#[derive(Clone, Debug, PartialEq, Eq)]
pub struct AdtHttpEndpoints {
    pub search_objects_path: String,
}

impl Default for AdtHttpEndpoints {
    /// The empty endpoint record (the configuration reader fills in
    /// [`default_search_path`] for a missing path).
    fn default() -> (r: Self)
        ensures
            r.search_objects_path@ == Seq::<char>::empty(),
    {
        AdtHttpEndpoints { search_objects_path: String::new() }
    }
}

/// Configuration of the ADT HTTP client.
#[derive(Clone, Debug, PartialEq, Eq)]
pub struct AdtHttpConfig {
    pub base_url: String,
    pub auth: AdtAuth,
    pub timeout_secs: u64,
    pub csrf_fetch_path: String,
    pub endpoints: AdtHttpEndpoints,
    pub insecure_tls: bool,
    pub sap_client: Option<String>,
    pub sap_language: Option<String>,
}

/// A repository search.
#[derive(Clone, Debug, PartialEq, Eq)]
pub struct AdtSearchRequest {
    pub query: String,
    pub max_results: Option<u32>,
}

/// One object found by a repository search.
#[derive(Clone, Debug, PartialEq, Eq)]
pub struct AdtObjectSummary {
    pub uri: String,
    pub name: String,
    pub object_type: Option<String>,
    pub package: Option<String>,
}

/// The objects found by a repository search.
#[derive(Clone, Debug, PartialEq, Eq)]
pub struct AdtSearchResponse {
    pub objects: Vec<AdtObjectSummary>,
}

/// The source of one object, with its entity tag when the server sent one.
#[derive(Clone, Debug, PartialEq, Eq)]
pub struct AdtSourceResponse {
    pub object_uri: String,
    pub source: String,
    pub etag: Option<String>,
}

/// A request to replace the source of one object.
#[derive(Clone, Debug, PartialEq, Eq)]
pub struct AdtUpdateSourceRequest {
    pub object_uri: String,
    pub source: String,
    pub etag: Option<String>,
}

/// The outcome of a source update.
#[derive(Clone, Debug, PartialEq, Eq)]
pub struct AdtUpdateSourceResponse {
    pub object_uri: String,
    pub status_code: u16,
    pub etag: Option<String>,
}

/// Configuration of the WebSocket client.
#[derive(Clone, Debug, PartialEq, Eq)]
pub struct WsClientConfig {
    pub url: String,
    pub request_timeout_secs: u64,
    pub connect_headers: BTreeMap<String, String>,
}

/// One message on the WebSocket channel.
#[derive(Clone, Debug, PartialEq)]
pub struct WsMessageEnvelope<T> {
    pub id: String,
    pub domain: String,
    pub action: String,
    pub payload: T,
    pub ok: Option<bool>,
    pub error: Option<String>,
}

/// Configuration of the whole engine.
#[derive(Clone, Debug, PartialEq, Eq)]
pub struct NeuroEngineConfig {
    pub adt: AdtHttpConfig,
    pub ws: Option<WsClientConfig>,
    pub safety: SafetyPolicy,
}

/// What the engine refuses to do.
#[derive(Clone, Debug, PartialEq, Eq)]
pub struct SafetyPolicy {
    pub read_only: bool,
    pub blocked_source_patterns: Vec<String>,
    pub allowed_ws_domains: Vec<String>,
    pub require_etag_for_updates: bool,
}

impl Default for SafetyPolicy {
    /// The permissive policy: nothing blocked, nothing required.
    fn default() -> (r: Self)
        ensures
            !r.read_only,
            r.blocked_source_patterns@.len() == 0,
            r.allowed_ws_domains@.len() == 0,
            !r.require_etag_for_updates,
    {
        SafetyPolicy {
            read_only: false,
            blocked_source_patterns: Vec::new(),
            allowed_ws_domains: Vec::new(),
            require_etag_for_updates: false,
        }
    }
}

/// Health of a runtime component, from best to worst.
#[derive(Clone, Copy, Debug, PartialEq, Eq, Structural, PartialOrd, Ord)]
pub enum DiagnoseStatus {
    Healthy,
    Degraded,
    Unavailable,
}

/// The position of a status in the order best to worst.
pub open spec fn status_rank(s: DiagnoseStatus) -> int {
    match s {
        DiagnoseStatus::Healthy => 0,
        DiagnoseStatus::Degraded => 1,
        DiagnoseStatus::Unavailable => 2,
    }
}

impl DiagnoseStatus {
    /// The position of this status in the order best to worst.
    pub fn rank(&self) -> (r: u8)
        ensures
            r == status_rank(*self),
    {
        match self {
            DiagnoseStatus::Healthy => 0,
            DiagnoseStatus::Degraded => 1,
            DiagnoseStatus::Unavailable => 2,
        }
    }
}

/// The health of one runtime component.
#[derive(Clone, Debug, PartialEq, Eq)]
pub struct RuntimeDiagnoseComponent {
    pub component: String,
    pub status: DiagnoseStatus,
    pub detail: String,
    pub latency_ms: Option<u64>,
}

/// A health report of the whole runtime. `metadata` lists its entries in
/// ascending key order, each key once.
#[derive(Clone, Debug)]
pub struct RuntimeDiagnoseResponse {
    pub timestamp_epoch_secs: u64,
    pub overall_status: DiagnoseStatus,
    pub components: Vec<RuntimeDiagnoseComponent>,
    pub metadata: Vec<(String, JsonValue)>,
}

/// A request routed to one domain of the WebSocket peer.
#[derive(Clone, Debug)]
pub struct WsDomainRequest {
    pub domain: String,
    pub action: String,
    pub payload: JsonValue,
}

/// The kinds of runtime failure reported to tool callers.
#[derive(Clone, Copy, Debug, PartialEq, Eq, Structural)]
pub enum NeuroRuntimeErrorCode {
    AdtHttpError,
    AdtAuthError,
    AdtCsrfError,
    WsTimeout,
    WsUnavailable,
    SafetyViolation,
    RuntimeInitError,
    InvalidArgument,
    Unknown,
}

/// A runtime failure reported to tool callers.
#[derive(Clone, Debug)]
pub struct NeuroRuntimeError {
    pub code: NeuroRuntimeErrorCode,
    pub message: String,
    pub details: Option<JsonValue>,
}

/// Default request timeout of the ADT client, in seconds.
pub fn default_timeout_secs() -> (r: u64)
    ensures
        r == 30,
{
    30
}

/// Default path fetched to obtain a CSRF token.
pub fn default_csrf_fetch_path() -> (r: String)
    ensures
        r@ == "/sap/bc/adt"@,
{
    "/sap/bc/adt".to_owned()
}

/// Default path of the repository search endpoint.
pub fn default_search_path() -> (r: String)
    ensures
        r@ == "/sap/bc/adt/discovery/search"@,
{
    "/sap/bc/adt/discovery/search".to_owned()
}

/// Default request timeout of the WebSocket client, in seconds.
pub fn default_ws_timeout_secs() -> (r: u64)
    ensures
        r == 15,
{
    15
}

} // verus!
