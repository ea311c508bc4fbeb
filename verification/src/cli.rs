//! The command line's decisions: the engine configuration that its options
//! describe, and where the source of an update comes from.
use vstd::prelude::*;

use std::collections::BTreeMap;

use crate::types::{
    AdtAuth, AdtHttpConfig, AdtHttpEndpoints, NeuroEngineConfig, SafetyPolicy, WsClientConfig,
};
use crate::xml::opt_text;

verus! {

/// The global options of the command line, as parsed.
#[derive(Clone, Debug)]
pub struct CliOptions {
    pub adt_base_url: String,
    pub adt_timeout_secs: u64,
    pub adt_csrf_fetch_path: String,
    pub adt_search_path: String,
    pub adt_user: Option<String>,
    pub adt_password: Option<String>,
    pub adt_cookie: Option<String>,
    pub ws_url: Option<String>,
    pub ws_timeout_secs: u64,
    pub read_only: bool,
    pub blocked_patterns: Vec<String>,
    pub allowed_ws_domains: Vec<String>,
}

/// The authentication that the options choose: a cookie when one is
/// given, else basic authentication when both user and password are,
/// else none.
pub open spec fn auth_matches(auth: AdtAuth, cli: CliOptions) -> bool {
    match cli.adt_cookie {
        Some(cookie) => auth matches AdtAuth::Cookie { cookie: c } && c@ == cookie@,
        None => match (cli.adt_user, cli.adt_password) {
            (Some(user), Some(password)) => auth matches AdtAuth::Basic { username, password: p }
                && username@ == user@ && p@ == password@,
            _ => auth is Anonymous,
        },
    }
}

/// The configuration that the options describe: the ADT client with
/// their base URL, timeout, token path, search path and authentication
/// (no TLS exceptions, no SAP client or language); a WebSocket channel
/// when a URL is given, with their timeout and no extra headers; and the
/// safety policy of their flags and lists, entity tags not required.
pub open spec fn config_matches(config: NeuroEngineConfig, cli: CliOptions) -> bool {
    &&& config.adt.base_url@ == cli.adt_base_url@
    &&& auth_matches(config.adt.auth, cli)
    &&& config.adt.timeout_secs == cli.adt_timeout_secs
    &&& config.adt.csrf_fetch_path@ == cli.adt_csrf_fetch_path@
    &&& config.adt.endpoints.search_objects_path@ == cli.adt_search_path@
    &&& !config.adt.insecure_tls
    &&& config.adt.sap_client is None
    &&& config.adt.sap_language is None
    &&& match cli.ws_url {
        Some(url) => config.ws matches Some(ws) && ws.url@ == url@ && ws.request_timeout_secs
            == cli.ws_timeout_secs && ws.connect_headers@.dom().len() == 0,
        None => config.ws is None,
    }
    &&& config.safety.read_only == cli.read_only
    &&& config.safety.blocked_source_patterns@.map_values(|s: String| s@)
        == cli.blocked_patterns@.map_values(|s: String| s@)
    &&& config.safety.allowed_ws_domains@.map_values(|s: String| s@)
        == cli.allowed_ws_domains@.map_values(|s: String| s@)
    &&& !config.safety.require_etag_for_updates
}

/// A copy of a list of strings.
fn copy_strings(items: &Vec<String>) -> (r: Vec<String>)
    ensures
        r@.map_values(|s: String| s@) == items@.map_values(|s: String| s@),
{
    let mut out: Vec<String> = Vec::new();
    let mut i: usize = 0;
    while i < items.len()
        invariant
            i <= items@.len(),
            out@.len() == i,
            forall|k: int| 0 <= k < i ==> #[trigger] out@[k]@ == items@[k]@,
        decreases items@.len() - i,
    {
        out.push(items[i].clone());
        i += 1;
    }
    assert(out@.map_values(|s: String| s@) =~= items@.map_values(|s: String| s@));
    out
}

/// The engine configuration that the command-line options describe.
pub fn build_engine_config(cli: &CliOptions) -> (r: NeuroEngineConfig)
    ensures
        config_matches(r, *cli),
{
    let auth = match (&cli.adt_user, &cli.adt_password, &cli.adt_cookie) {
        (_, _, Some(cookie)) => AdtAuth::Cookie { cookie: cookie.clone() },
        (Some(username), Some(password), None) => AdtAuth::Basic {
            username: username.clone(),
            password: password.clone(),
        },
        _ => AdtAuth::Anonymous,
    };
    let ws = match &cli.ws_url {
        Some(url) => {
            let headers: BTreeMap<String, String> = BTreeMap::new();
            Some(
                WsClientConfig {
                    url: url.clone(),
                    request_timeout_secs: cli.ws_timeout_secs,
                    connect_headers: headers,
                },
            )
        },
        None => None,
    };
    NeuroEngineConfig {
        adt: AdtHttpConfig {
            base_url: cli.adt_base_url.clone(),
            auth,
            timeout_secs: cli.adt_timeout_secs,
            csrf_fetch_path: cli.adt_csrf_fetch_path.clone(),
            endpoints: AdtHttpEndpoints { search_objects_path: cli.adt_search_path.clone() },
            insecure_tls: false,
            sap_client: None,
            sap_language: None,
        },
        ws,
        safety: SafetyPolicy {
            read_only: cli.read_only,
            blocked_source_patterns: copy_strings(&cli.blocked_patterns),
            allowed_ws_domains: copy_strings(&cli.allowed_ws_domains),
            require_etag_for_updates: false,
        },
    }
}

/// Where the new source of an update comes from.
#[derive(Clone, Debug, PartialEq, Eq)]
pub enum SourcePayload {
    /// Given on the command line.
    Inline(String),
    /// To be read from this file.
    File(String),
}

/// The source of an update: exactly one of the inline source and the
/// source file must be given; otherwise the message that refuses the
/// options.
pub open spec fn spec_source_payload(source: Option<Seq<char>>, source_file: Option<Seq<char>>) -> Result<
    (bool, Seq<char>),
    Seq<char>,
> {
    match (source, source_file) {
        (Some(s), None) => Ok((true, s)),
        (None, Some(p)) => Ok((false, p)),
        (Some(_), Some(_)) => Err("provide only one of --source or --source-file"@),
        (None, None) => Err("one of --source or --source-file is required"@),
    }
}

/// Where the new source of an update comes from.
pub fn resolve_source_payload(source: Option<String>, source_file: Option<String>) -> (r: Result<
    SourcePayload,
    String,
>)
    ensures
        match spec_source_payload(opt_text(source), opt_text(source_file)) {
            Ok((true, s)) => r matches Ok(SourcePayload::Inline(x)) && x@ == s,
            Ok((false, p)) => r matches Ok(SourcePayload::File(x)) && x@ == p,
            Err(m) => r matches Err(e) && e@ == m,
        },
{
    match (source, source_file) {
        (Some(source), None) => Ok(SourcePayload::Inline(source)),
        (None, Some(path)) => Ok(SourcePayload::File(path)),
        (Some(_), Some(_)) => Err("provide only one of --source or --source-file".to_owned()),
        (None, None) => Err("one of --source or --source-file is required".to_owned()),
    }
}

} // verus!
