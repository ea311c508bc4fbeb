//! The ADT requests behind the editing tools: locks, writes under a lock,
//! activation, syntax checks, unit test runs, deletion and class sections.
use vstd::prelude::*;
use vstd::utf8::encode_utf8;

use crate::errors::NeuroMcpError;
use crate::mcp::create::{invalid_arguments, with_query};
use crate::mcp::paths::{build_class_include_uri, build_path_with_query, enc, spec_class_include_uri};
use crate::mcp::xmltext::{escape_xml, spec_escape_xml};
use crate::text::{append, concat, contains_str, find_seq, owned, to_upper, trim, trim_seq, upper_seq};
use crate::xml::opt_text;

verus! {

/// The HTTP method of a request.
#[derive(Clone, Copy, Debug, PartialEq, Eq, Structural)]
pub enum HttpMethod {
    Get,
    Post,
    Put,
    Delete,
}

/// A request to the ADT service: method, path (with its query), body and
/// the content type and accepted type, when set.
#[derive(Clone, Debug)]
pub struct RawRequest {
    pub method: HttpMethod,
    pub path: String,
    pub body: Option<String>,
    pub content_type: Option<String>,
    pub accept: Option<String>,
}

/// A request as plain values.
pub type RequestView = (HttpMethod, Seq<char>, Option<Seq<char>>, Option<Seq<char>>, Option<Seq<char>>);

/// A request as plain values.
pub open spec fn request_view(r: RawRequest) -> RequestView {
    (r.method, r.path@, opt_text(r.body), opt_text(r.content_type), opt_text(r.accept))
}

/// Query pairs as plain values.
pub open spec fn pairs_view(q: Seq<(String, String)>) -> Seq<(Seq<char>, Seq<char>)> {
    q.map_values(|p: (String, String)| (p.0@, p.1@))
}

/// The transport request as a `corrNr` query pair, when one is given and
/// not blank; trimmed when `trimmed`.
pub open spec fn transport_pairs(transport: Option<Seq<char>>, trimmed: bool) -> Seq<(Seq<char>, Seq<char>)> {
    match transport {
        Some(t) => if trim_seq(t).len() > 0 {
            seq![("corrNr"@, if trimmed { trim_seq(t) } else { t })]
        } else {
            Seq::empty()
        },
        None => Seq::empty(),
    }
}

/// The text of an optional string argument.
pub open spec fn opt_view(v: Option<&str>) -> Option<Seq<char>> {
    match v {
        Some(t) => Some(t@),
        None => None,
    }
}

/// Adds the `corrNr` pair of the transport request, if any.
fn push_transport(query: &mut Vec<(String, String)>, transport: Option<&str>, trimmed: bool)
    ensures
        pairs_view(final(query)@) == pairs_view(old(query)@) + transport_pairs(opt_view(transport), trimmed),
{
    let ghost before = pairs_view(query@);
    match transport {
        Some(t) => {
            let cleaned = trim(t);
            if !cleaned.as_str().is_empty() {
                let value = if trimmed {
                    cleaned
                } else {
                    owned(t)
                };
                query.push(("corrNr".to_owned(), value));
                assert(pairs_view(query@) =~= before + transport_pairs(opt_view(transport), trimmed));
            } else {
                assert(pairs_view(query@) =~= before + transport_pairs(opt_view(transport), trimmed));
            }
        },
        None => {
            assert(pairs_view(query@) =~= before + transport_pairs(opt_view(transport), trimmed));
        },
    }
}

/// A query of one pair.
fn one_pair(key: &str, value: &str) -> (r: Vec<(String, String)>)
    ensures
        pairs_view(r@) == seq![(key@, value@)],
{
    let mut q: Vec<(String, String)> = Vec::new();
    q.push((owned(key), owned(value)));
    assert(pairs_view(q@) =~= seq![(key@, value@)]);
    q
}

/// A query of two pairs.
fn two_pairs(k1: &str, v1: &str, k2: &str, v2: &str) -> (r: Vec<(String, String)>)
    ensures
        pairs_view(r@) == seq![(k1@, v1@), (k2@, v2@)],
{
    let mut q: Vec<(String, String)> = Vec::new();
    q.push((owned(k1), owned(v1)));
    q.push((owned(k2), owned(v2)));
    assert(q@.len() == 2);
    assert(pairs_view(q@) =~= seq![(k1@, v1@), (k2@, v2@)]);
    q
}

/// The request that locks an object for `access_mode`.
pub open spec fn spec_lock_request(object_url: Seq<char>, access_mode: Seq<char>) -> RequestView {
    (
        HttpMethod::Post,
        with_query(object_url, seq![("_action"@, "LOCK"@), ("accessMode"@, access_mode)]),
        None,
        None,
        Some("application/vnd.sap.as+xml;charset=UTF-8;dataname=com.sap.adt.lock.result"@),
    )
}

/// The request that locks an object (the object must be given; the
/// access mode is `MODIFY` unless given).
pub fn lock_request(object_url: Option<String>, access_mode: Option<String>, tool_name: &str) -> (r: Result<
    RawRequest,
    NeuroMcpError,
>)
    ensures
        match object_url {
            None => r matches Err(NeuroMcpError::InvalidArguments { tool, message }) && tool@
                == tool_name@ && message@ == "objectUrl/object_url is required"@,
            Some(u) => r matches Ok(q) && request_view(q) == spec_lock_request(
                u@,
                match access_mode {
                    Some(m) => m@,
                    None => "MODIFY"@,
                },
            ),
        },
{
    let object_url = match object_url {
        Some(u) => u,
        None => {
            return Err(invalid_arguments(tool_name, "objectUrl/object_url is required"));
        },
    };
    let access_mode = match access_mode {
        Some(m) => m,
        None => owned("MODIFY"),
    };
    let query = two_pairs("_action", "LOCK", "accessMode", access_mode.as_str());
    let path = build_path_with_query(object_url.as_str(), &query);
    Ok(RawRequest {
        method: HttpMethod::Post,
        path,
        body: None,
        content_type: None,
        accept: Some(owned("application/vnd.sap.as+xml;charset=UTF-8;dataname=com.sap.adt.lock.result")),
    })
}

/// The request that releases a lock.
pub open spec fn spec_unlock_request(object_url: Seq<char>, lock_handle: Seq<char>) -> RequestView {
    (
        HttpMethod::Post,
        with_query(object_url, seq![("_action"@, "UNLOCK"@), ("lockHandle"@, lock_handle)]),
        None,
        None,
        None,
    )
}

/// The request that releases a lock (object and lock handle must be
/// given).
pub fn unlock_request(object_url: Option<String>, lock_handle: Option<String>, tool_name: &str) -> (r: Result<
    RawRequest,
    NeuroMcpError,
>)
    ensures
        match (object_url, lock_handle) {
            (None, _) => r matches Err(NeuroMcpError::InvalidArguments { tool, message }) && tool@
                == tool_name@ && message@ == "objectUrl/object_url is required"@,
            (Some(_), None) => r matches Err(NeuroMcpError::InvalidArguments { tool, message })
                && tool@ == tool_name@ && message@ == "lockHandle/lock_handle is required"@,
            (Some(u), Some(h)) => r matches Ok(q) && request_view(q) == spec_unlock_request(u@, h@),
        },
{
    let object_url = match object_url {
        Some(u) => u,
        None => {
            return Err(invalid_arguments(tool_name, "objectUrl/object_url is required"));
        },
    };
    let lock_handle = match lock_handle {
        Some(h) => h,
        None => {
            return Err(invalid_arguments(tool_name, "lockHandle/lock_handle is required"));
        },
    };
    let query = two_pairs("_action", "UNLOCK", "lockHandle", lock_handle.as_str());
    let path = build_path_with_query(object_url.as_str(), &query);
    Ok(RawRequest { method: HttpMethod::Post, path, body: None, content_type: None, accept: None })
}

/// The body that asks to activate one object.
pub open spec fn activation_body(object_url: Seq<char>, object_name: Seq<char>) -> Seq<char> {
    "<?xml version=\"1.0\" encoding=\"UTF-8\"?>\n<adtcore:objectReferences xmlns:adtcore=\"http://www.sap.com/adt/core\">\n  <adtcore:objectReference adtcore:uri=\""@
        + object_url + "\" adtcore:name=\""@ + object_name + "\"/>\n</adtcore:objectReferences>"@
}

/// The request that activates an object.
pub open spec fn spec_activation_request(object_url: Seq<char>, object_name: Seq<char>) -> RequestView {
    (
        HttpMethod::Post,
        "/sap/bc/adt/activation?method=activate&preauditRequested=true"@,
        Some(activation_body(object_url, object_name)),
        Some("application/xml"@),
        None,
    )
}

/// The request that activates an object (object and name must be given).
pub fn activation_request(object_url: Option<String>, object_name: Option<String>, tool_name: &str) -> (r: Result<
    RawRequest,
    NeuroMcpError,
>)
    ensures
        match (object_url, object_name) {
            (None, _) => r matches Err(NeuroMcpError::InvalidArguments { tool, message }) && tool@
                == tool_name@ && message@ == "objectUrl/object_url is required"@,
            (Some(_), None) => r matches Err(NeuroMcpError::InvalidArguments { tool, message })
                && tool@ == tool_name@ && message@ == "objectName/object_name is required"@,
            (Some(u), Some(n)) => r matches Ok(q) && request_view(q) == spec_activation_request(u@, n@),
        },
{
    let object_url = match object_url {
        Some(u) => u,
        None => {
            return Err(invalid_arguments(tool_name, "objectUrl/object_url is required"));
        },
    };
    let object_name = match object_name {
        Some(n) => n,
        None => {
            return Err(invalid_arguments(tool_name, "objectName/object_name is required"));
        },
    };
    let mut body = concat(
        "<?xml version=\"1.0\" encoding=\"UTF-8\"?>\n<adtcore:objectReferences xmlns:adtcore=\"http://www.sap.com/adt/core\">\n  <adtcore:objectReference adtcore:uri=\"",
        object_url.as_str(),
    );
    append(&mut body, "\" adtcore:name=\"");
    append(&mut body, object_name.as_str());
    append(&mut body, "\"/>\n</adtcore:objectReferences>");
    Ok(RawRequest {
        method: HttpMethod::Post,
        path: owned("/sap/bc/adt/activation?method=activate&preauditRequested=true"),
        body: Some(body),
        content_type: Some(owned("application/xml")),
        accept: None,
    })
}

/// The digit for a six-bit value in the standard base64 alphabet:
/// `A`-`Z`, `a`-`z`, `0`-`9`, `+` and `/`.
pub open spec fn base64_digit(v: int) -> char {
    if v < 26 {
        ('A' as int + v) as char
    } else if v < 52 {
        ('a' as int + (v - 26)) as char
    } else if v < 62 {
        ('0' as int + (v - 52)) as char
    } else if v == 62 {
        '+'
    } else {
        '/'
    }
}

/// Standard base64 with padding: each group of three bytes as four digits,
/// a last group of one or two bytes padded with `=`.
pub open spec fn base64_standard(bytes: Seq<u8>) -> Seq<char>
    decreases bytes.len(),
{
    if bytes.len() == 0 {
        Seq::empty()
    } else if bytes.len() == 1 {
        let b0 = bytes[0] as int;
        seq![base64_digit(b0 / 4), base64_digit((b0 % 4) * 16), '=', '=']
    } else if bytes.len() == 2 {
        let b0 = bytes[0] as int;
        let b1 = bytes[1] as int;
        seq![base64_digit(b0 / 4), base64_digit((b0 % 4) * 16 + b1 / 16), base64_digit((b1 % 16) * 4), '=']
    } else {
        let b0 = bytes[0] as int;
        let b1 = bytes[1] as int;
        let b2 = bytes[2] as int;
        seq![
            base64_digit(b0 / 4),
            base64_digit((b0 % 4) * 16 + b1 / 16),
            base64_digit((b1 % 16) * 4 + b2 / 64),
            base64_digit(b2 % 64),
        ] + base64_standard(bytes.skip(3))
    }
}

/// The standard base64 encoding of the UTF-8 bytes of a text.
pub open spec fn base64_of_text(text: Seq<char>) -> Seq<char> {
    base64_standard(encode_utf8(text))
}

/// Encodes the UTF-8 bytes of `text` in standard base64 with padding
/// (`base64::engine::general_purpose::STANDARD`, `Engine::encode`).
/// Claimed: the result is `base64_of_text(text)`.
#[verifier::external_body]
pub(crate) fn base64_encode(text: &str) -> (r: String)
    ensures
        r@ == base64_of_text(text@),
{
    base64::Engine::encode(&base64::engine::general_purpose::STANDARD, text.as_bytes())
}

/// The URL whose source a syntax check reads: a class section as it is,
/// anything else by its main source.
pub open spec fn check_source_url(object_url: Seq<char>) -> Seq<char> {
    if find_seq(object_url, "/includes/"@) is Some {
        object_url
    } else {
        object_url + "/source/main"@
    }
}

/// The body that asks to check `content` as the source at `source_url`.
pub open spec fn syntax_check_body(source_url: Seq<char>, content: Seq<char>) -> Seq<char> {
    "<?xml version=\"1.0\" encoding=\"UTF-8\"?>\n<chkrun:checkObjectList xmlns:chkrun=\"http://www.sap.com/adt/checkrun\" xmlns:adtcore=\"http://www.sap.com/adt/core\">\n  <chkrun:checkObject adtcore:uri=\""@
        + source_url
        + "\" chkrun:version=\"active\">\n    <chkrun:artifacts>\n      <chkrun:artifact chkrun:contentType=\"text/plain; charset=utf-8\" chkrun:uri=\""@
        + source_url + "\">\n        <chkrun:content>"@ + base64_of_text(content)
        + "</chkrun:content>\n      </chkrun:artifact>\n    </chkrun:artifacts>\n  </chkrun:checkObject>\n</chkrun:checkObjectList>"@
}

/// The request that checks the syntax of `content` for an object.
pub open spec fn spec_syntax_check_request(object_url: Seq<char>, content: Seq<char>) -> RequestView {
    (
        HttpMethod::Post,
        "/sap/bc/adt/checkruns?reporters=abapCheckRun"@,
        Some(syntax_check_body(check_source_url(object_url), content)),
        Some("application/*"@),
        None,
    )
}

/// The request that checks the syntax of a source (object and content
/// must be given), with the URL of the source it checks.
pub fn syntax_check_request(object_url: Option<String>, content: Option<String>, tool_name: &str) -> (r: Result<
    (RawRequest, String),
    NeuroMcpError,
>)
    ensures
        match (object_url, content) {
            (None, _) => r matches Err(NeuroMcpError::InvalidArguments { tool, message }) && tool@
                == tool_name@ && message@ == "objectUrl/object_url is required"@,
            (Some(_), None) => r matches Err(NeuroMcpError::InvalidArguments { tool, message })
                && tool@ == tool_name@ && message@ == "content is required"@,
            (Some(u), Some(c)) => r matches Ok((q, su)) && request_view(q) == spec_syntax_check_request(
                u@,
                c@,
            ) && su@ == check_source_url(u@),
        },
{
    let object_url = match object_url {
        Some(u) => u,
        None => {
            return Err(invalid_arguments(tool_name, "objectUrl/object_url is required"));
        },
    };
    let content = match content {
        Some(c) => c,
        None => {
            return Err(invalid_arguments(tool_name, "content is required"));
        },
    };
    let source_url = if contains_str(object_url.as_str(), "/includes/") {
        owned(object_url.as_str())
    } else {
        concat(object_url.as_str(), "/source/main")
    };
    let encoded = base64_encode(content.as_str());
    let mut body = concat(
        "<?xml version=\"1.0\" encoding=\"UTF-8\"?>\n<chkrun:checkObjectList xmlns:chkrun=\"http://www.sap.com/adt/checkrun\" xmlns:adtcore=\"http://www.sap.com/adt/core\">\n  <chkrun:checkObject adtcore:uri=\"",
        source_url.as_str(),
    );
    append(
        &mut body,
        "\" chkrun:version=\"active\">\n    <chkrun:artifacts>\n      <chkrun:artifact chkrun:contentType=\"text/plain; charset=utf-8\" chkrun:uri=\"",
    );
    append(&mut body, source_url.as_str());
    append(&mut body, "\">\n        <chkrun:content>");
    append(&mut body, encoded.as_str());
    append(
        &mut body,
        "</chkrun:content>\n      </chkrun:artifact>\n    </chkrun:artifacts>\n  </chkrun:checkObject>\n</chkrun:checkObjectList>",
    );
    let request = RawRequest {
        method: HttpMethod::Post,
        path: owned("/sap/bc/adt/checkruns?reporters=abapCheckRun"),
        body: Some(body),
        content_type: Some(owned("application/*")),
        accept: None,
    };
    Ok((request, source_url))
}

/// The text of a flag.
pub open spec fn flag_text(b: bool) -> Seq<char> {
    if b {
        "true"@
    } else {
        "false"@
    }
}

/// The body that asks to run the unit tests of an object.
pub open spec fn unit_test_body(object_url: Seq<char>, dangerous: bool, long: bool) -> Seq<char> {
    "<?xml version=\"1.0\" encoding=\"UTF-8\"?>\n<aunit:runConfiguration xmlns:aunit=\"http://www.sap.com/adt/aunit\">\n  <external>\n    <coverage active=\"false\"/>\n  </external>\n  <options>\n    <uriType value=\"semantic\"/>\n    <testDeterminationStrategy sameProgram=\"true\" assignedTests=\"false\"/>\n    <testRiskLevels harmless=\"true\" dangerous=\""@
        + flag_text(dangerous) + "\" critical=\"false\"/>\n    <testDurations short=\"true\" medium=\"true\" long=\""@
        + flag_text(long)
        + "\"/>\n    <withNavigationUri enabled=\"true\"/>\n  </options>\n  <adtcore:objectSets xmlns:adtcore=\"http://www.sap.com/adt/core\">\n    <objectSet kind=\"inclusive\">\n      <adtcore:objectReferences>\n        <adtcore:objectReference adtcore:uri=\""@
        + spec_escape_xml(object_url)
        + "\"/>\n      </adtcore:objectReferences>\n    </objectSet>\n  </adtcore:objectSets>\n</aunit:runConfiguration>"@
}

/// The request that runs the unit tests of an object.
pub open spec fn spec_unit_test_request(object_url: Seq<char>, dangerous: bool, long: bool) -> RequestView {
    (
        HttpMethod::Post,
        "/sap/bc/adt/abapunit/testruns"@,
        Some(unit_test_body(object_url, dangerous, long)),
        Some("application/*"@),
        Some("application/*"@),
    )
}

fn flag_string(b: bool) -> (r: &'static str)
    ensures
        r@ == flag_text(b),
{
    if b {
        "true"
    } else {
        "false"
    }
}

/// The request that runs the unit tests of an object (which must be
/// given); dangerous and long tests only when asked for.
pub fn unit_test_request(
    object_url: Option<String>,
    include_dangerous: Option<bool>,
    include_long: Option<bool>,
    tool_name: &str,
) -> (r: Result<RawRequest, NeuroMcpError>)
    ensures
        match object_url {
            None => r matches Err(NeuroMcpError::InvalidArguments { tool, message }) && tool@
                == tool_name@ && message@ == "objectUrl/object_url is required"@,
            Some(u) => r matches Ok(q) && request_view(q) == spec_unit_test_request(
                u@,
                include_dangerous == Some(true),
                include_long == Some(true),
            ),
        },
{
    let object_url = match object_url {
        Some(u) => u,
        None => {
            return Err(invalid_arguments(tool_name, "objectUrl/object_url is required"));
        },
    };
    let dangerous = match include_dangerous {
        Some(b) => b,
        None => false,
    };
    let long = match include_long {
        Some(b) => b,
        None => false,
    };
    let mut body = concat(
        "<?xml version=\"1.0\" encoding=\"UTF-8\"?>\n<aunit:runConfiguration xmlns:aunit=\"http://www.sap.com/adt/aunit\">\n  <external>\n    <coverage active=\"false\"/>\n  </external>\n  <options>\n    <uriType value=\"semantic\"/>\n    <testDeterminationStrategy sameProgram=\"true\" assignedTests=\"false\"/>\n    <testRiskLevels harmless=\"true\" dangerous=\"",
        flag_string(dangerous),
    );
    append(&mut body, "\" critical=\"false\"/>\n    <testDurations short=\"true\" medium=\"true\" long=\"");
    append(&mut body, flag_string(long));
    append(
        &mut body,
        "\"/>\n    <withNavigationUri enabled=\"true\"/>\n  </options>\n  <adtcore:objectSets xmlns:adtcore=\"http://www.sap.com/adt/core\">\n    <objectSet kind=\"inclusive\">\n      <adtcore:objectReferences>\n        <adtcore:objectReference adtcore:uri=\"",
    );
    let escaped = escape_xml(object_url.as_str());
    append(&mut body, escaped.as_str());
    append(
        &mut body,
        "\"/>\n      </adtcore:objectReferences>\n    </objectSet>\n  </adtcore:objectSets>\n</aunit:runConfiguration>",
    );
    Ok(RawRequest {
        method: HttpMethod::Post,
        path: owned("/sap/bc/adt/abapunit/testruns"),
        body: Some(body),
        content_type: Some(owned("application/*")),
        accept: Some(owned("application/*")),
    })
}

/// The request that writes a source under a lock, with the transport
/// request (trimmed) when one is given.
pub open spec fn spec_write_source_request(
    source_uri: Seq<char>,
    source: Seq<char>,
    lock_handle: Seq<char>,
    transport: Option<Seq<char>>,
) -> RequestView {
    (
        HttpMethod::Put,
        with_query(source_uri, seq![("lockHandle"@, lock_handle)] + transport_pairs(transport, true)),
        Some(source),
        Some("text/plain"@),
        Some("application/*"@),
    )
}

/// The request that writes a source under a lock.
pub fn write_source_request(source_uri: &str, source: &str, lock_handle: &str, transport: Option<&str>) -> (r: RawRequest)
    ensures
        request_view(r) == spec_write_source_request(source_uri@, source@, lock_handle@, opt_view(transport)),
{
    let mut query = one_pair("lockHandle", lock_handle);
    push_transport(&mut query, transport, true);
    let path = build_path_with_query(source_uri, &query);
    RawRequest {
        method: HttpMethod::Put,
        path,
        body: Some(owned(source)),
        content_type: Some(owned("text/plain")),
        accept: Some(owned("application/*")),
    }
}

/// The request that deletes a locked object, with the transport request
/// (as given) when one is given and not blank.
pub open spec fn spec_delete_request(
    object_url: Seq<char>,
    lock_handle: Seq<char>,
    transport: Option<Seq<char>>,
) -> RequestView {
    (
        HttpMethod::Delete,
        with_query(object_url, seq![("lockHandle"@, lock_handle)] + transport_pairs(transport, false)),
        None,
        None,
        None,
    )
}

/// The request that deletes a locked object (object and lock handle must
/// be given).
pub fn delete_request(
    object_url: Option<String>,
    lock_handle: Option<String>,
    transport: Option<String>,
    tool_name: &str,
) -> (r: Result<RawRequest, NeuroMcpError>)
    ensures
        match (object_url, lock_handle) {
            (None, _) => r matches Err(NeuroMcpError::InvalidArguments { tool, message }) && tool@
                == tool_name@ && message@ == "objectUrl/object_url is required"@,
            (Some(_), None) => r matches Err(NeuroMcpError::InvalidArguments { tool, message })
                && tool@ == tool_name@ && message@ == "lockHandle/lock_handle is required"@,
            (Some(u), Some(h)) => r matches Ok(q) && request_view(q) == spec_delete_request(
                u@,
                h@,
                opt_text(transport),
            ),
        },
{
    let object_url = match object_url {
        Some(u) => u,
        None => {
            return Err(invalid_arguments(tool_name, "objectUrl/object_url is required"));
        },
    };
    let lock_handle = match lock_handle {
        Some(h) => h,
        None => {
            return Err(invalid_arguments(tool_name, "lockHandle/lock_handle is required"));
        },
    };
    let mut query = one_pair("lockHandle", lock_handle.as_str());
    let t = match &transport {
        Some(t) => Some(t.as_str()),
        None => None,
    };
    assert(opt_view(t) == opt_text(transport));
    push_transport(&mut query, t, false);
    let path = build_path_with_query(object_url.as_str(), &query);
    Ok(RawRequest { method: HttpMethod::Delete, path, body: None, content_type: None, accept: None })
}

/// The body that creates the test-class section of a class.
pub open spec fn test_include_body() -> Seq<char> {
    "<?xml version=\"1.0\" encoding=\"UTF-8\"?>\n<class:abapClassInclude xmlns:class=\"http://www.sap.com/adt/oo/classes\"\n  xmlns:adtcore=\"http://www.sap.com/adt/core\"\n  adtcore:name=\"dummy\" class:includeType=\"testclasses\"/>"@
}

/// The request that creates the test-class section of a locked class.
pub open spec fn spec_test_include_request(
    class_name: Seq<char>,
    lock_handle: Seq<char>,
    transport: Option<Seq<char>>,
) -> RequestView {
    (
        HttpMethod::Post,
        with_query(
            "/sap/bc/adt/oo/classes/"@ + enc(upper_seq(class_name)) + "/includes"@,
            seq![("lockHandle"@, lock_handle)] + transport_pairs(transport, false),
        ),
        Some(test_include_body()),
        Some("application/*"@),
        None,
    )
}

/// The request that creates the test-class section of a locked class
/// (class and lock handle must be given).
pub fn test_include_request(
    class_name: Option<String>,
    lock_handle: Option<String>,
    transport: Option<String>,
    tool_name: &str,
) -> (r: Result<RawRequest, NeuroMcpError>)
    ensures
        match (class_name, lock_handle) {
            (None, _) => r matches Err(NeuroMcpError::InvalidArguments { tool, message }) && tool@
                == tool_name@ && message@ == "className/class_name is required"@,
            (Some(_), None) => r matches Err(NeuroMcpError::InvalidArguments { tool, message })
                && tool@ == tool_name@ && message@ == "lockHandle/lock_handle is required"@,
            (Some(c), Some(h)) => r matches Ok(q) && request_view(q) == spec_test_include_request(
                c@,
                h@,
                opt_text(transport),
            ),
        },
{
    let class_name = match class_name {
        Some(c) => c,
        None => {
            return Err(invalid_arguments(tool_name, "className/class_name is required"));
        },
    };
    let lock_handle = match lock_handle {
        Some(h) => h,
        None => {
            return Err(invalid_arguments(tool_name, "lockHandle/lock_handle is required"));
        },
    };
    let upper = to_upper(class_name.as_str());
    let encoded = crate::mcp::encode::encode_path_segment(upper.as_str());
    let mut includes_path = concat("/sap/bc/adt/oo/classes/", encoded.as_str());
    append(&mut includes_path, "/includes");
    let mut query = one_pair("lockHandle", lock_handle.as_str());
    let t = match &transport {
        Some(t) => Some(t.as_str()),
        None => None,
    };
    assert(opt_view(t) == opt_text(transport));
    push_transport(&mut query, t, false);
    let path = build_path_with_query(includes_path.as_str(), &query);
    Ok(RawRequest {
        method: HttpMethod::Post,
        path,
        body: Some(owned(
            "<?xml version=\"1.0\" encoding=\"UTF-8\"?>\n<class:abapClassInclude xmlns:class=\"http://www.sap.com/adt/oo/classes\"\n  xmlns:adtcore=\"http://www.sap.com/adt/core\"\n  adtcore:name=\"dummy\" class:includeType=\"testclasses\"/>",
        )),
        content_type: Some(owned("application/*")),
        accept: None,
    })
}

/// The request that writes a section of a locked class.
pub open spec fn spec_class_include_request(
    class_name: Seq<char>,
    include_type: Seq<char>,
    source: Seq<char>,
    lock_handle: Seq<char>,
    transport: Option<Seq<char>>,
) -> RequestView {
    (
        HttpMethod::Put,
        with_query(
            spec_class_include_uri(class_name, include_type),
            seq![("lockHandle"@, lock_handle)] + transport_pairs(transport, false),
        ),
        Some(source),
        Some("text/plain; charset=utf-8"@),
        None,
    )
}

/// The request that writes a section of a locked class (class, section
/// and lock handle must be given), with the section's URL.
pub fn class_include_request(
    class_name: Option<String>,
    include_type: Option<String>,
    source: &str,
    lock_handle: Option<String>,
    transport: Option<String>,
    tool_name: &str,
) -> (r: Result<(RawRequest, String), NeuroMcpError>)
    ensures
        match (class_name, include_type, lock_handle) {
            (None, _, _) => r matches Err(NeuroMcpError::InvalidArguments { tool, message }) && tool@
                == tool_name@ && message@ == "className/class_name is required"@,
            (Some(_), None, _) => r matches Err(NeuroMcpError::InvalidArguments { tool, message })
                && tool@ == tool_name@ && message@ == "includeType/include_type is required"@,
            (Some(_), Some(_), None) => r matches Err(NeuroMcpError::InvalidArguments { tool, message })
                && tool@ == tool_name@ && message@ == "lockHandle/lock_handle is required"@,
            (Some(c), Some(i), Some(h)) => r matches Ok((q, base)) && request_view(q)
                == spec_class_include_request(c@, i@, source@, h@, opt_text(transport)) && base@
                == spec_class_include_uri(c@, i@),
        },
{
    let class_name = match class_name {
        Some(c) => c,
        None => {
            return Err(invalid_arguments(tool_name, "className/class_name is required"));
        },
    };
    let include_type = match include_type {
        Some(i) => i,
        None => {
            return Err(invalid_arguments(tool_name, "includeType/include_type is required"));
        },
    };
    let lock_handle = match lock_handle {
        Some(h) => h,
        None => {
            return Err(invalid_arguments(tool_name, "lockHandle/lock_handle is required"));
        },
    };
    let base_uri = build_class_include_uri(class_name.as_str(), include_type.as_str());
    let mut query = one_pair("lockHandle", lock_handle.as_str());
    let t = match &transport {
        Some(t) => Some(t.as_str()),
        None => None,
    };
    assert(opt_view(t) == opt_text(transport));
    push_transport(&mut query, t, false);
    let path = build_path_with_query(base_uri.as_str(), &query);
    let request = RawRequest {
        method: HttpMethod::Put,
        path,
        body: Some(owned(source)),
        content_type: Some(owned("text/plain; charset=utf-8")),
        accept: None,
    };
    Ok((request, base_uri))
}

} // verus!
