//! The ADT requests behind the transport tools: a user's requests, the
//! transport check of an object, listing, reading, creating, releasing and
//! deleting requests.
use vstd::prelude::*;

use crate::errors::NeuroMcpError;
use crate::mcp::create::{invalid_arguments, with_query};
use crate::mcp::encode::encode_path_segment;
use crate::mcp::paths::{build_path_with_query, canon, canon_string, enc};
use crate::mcp::requests::{pairs_view, request_view, HttpMethod, RawRequest, RequestView};
use crate::mcp::xmltext::{escape_xml, spec_escape_xml};
use crate::text::{append, concat, eq_ignore_case, lower_seq, owned, trim, trim_seq};
use crate::xml::opt_text;

verus! {

/// The request that lists a user's transport requests with their targets.
pub open spec fn spec_user_transports_request(user: Seq<char>) -> RequestView {
    (
        HttpMethod::Get,
        with_query("/sap/bc/adt/cts/transportrequests"@, seq![("user"@, canon(user)), ("targets"@, "true"@)]),
        None,
        None,
        Some(
            "application/vnd.sap.adt.transportorganizertree.v1+xml, application/vnd.sap.adt.transportorganizer.v1+xml;q=0.9"@,
        ),
    )
}

/// The request that lists a user's transport requests (the user must be
/// given), with the user as sent (trimmed, upper-cased).
pub fn user_transports_request(user_name: Option<String>, tool_name: &str) -> (r: Result<(RawRequest, String), NeuroMcpError>)
    ensures
        match user_name {
            None => r matches Err(NeuroMcpError::InvalidArguments { tool, message }) && tool@
                == tool_name@ && message@ == "user_name is required"@,
            Some(u) => r matches Ok((q, sent)) && request_view(q) == spec_user_transports_request(u@)
                && sent@ == canon(u@),
        },
{
    let user_name = match user_name {
        Some(u) => u,
        None => {
            return Err(invalid_arguments(tool_name, "user_name is required"));
        },
    };
    let user = canon_string(user_name.as_str());
    let mut query: Vec<(String, String)> = Vec::new();
    query.push((owned("user"), user.clone()));
    query.push((owned("targets"), owned("true")));
    assert(query@.len() == 2);
    assert(pairs_view(query@) =~= seq![("user"@, canon(user_name@)), ("targets"@, "true"@)]);
    let path = build_path_with_query("/sap/bc/adt/cts/transportrequests", &query);
    let request = RawRequest {
        method: HttpMethod::Get,
        path,
        body: None,
        content_type: None,
        accept: Some(owned(
            "application/vnd.sap.adt.transportorganizertree.v1+xml, application/vnd.sap.adt.transportorganizer.v1+xml;q=0.9",
        )),
    };
    Ok((request, user))
}

/// The body of a transport check of an object in a package.
pub open spec fn transport_check_body(object_url: Seq<char>, dev_class: Seq<char>) -> Seq<char> {
    "<?xml version=\"1.0\" encoding=\"utf-8\"?>\n<asx:abap xmlns:asx=\"http://www.sap.com/abapxml\" version=\"1.0\">\n  <asx:values>\n    <DATA>\n      <DEVCLASS>"@
        + spec_escape_xml(dev_class) + "</DEVCLASS>\n      <OPERATION>I</OPERATION>\n      <URI>"@
        + spec_escape_xml(object_url) + "</URI>\n    </DATA>\n  </asx:values>\n</asx:abap>"@
}

/// The request that checks which transport an object's change needs.
pub open spec fn spec_transport_check_request(object_url: Seq<char>, dev_class: Seq<char>) -> RequestView {
    (
        HttpMethod::Post,
        "/sap/bc/adt/cts/transportchecks"@,
        Some(transport_check_body(object_url, dev_class)),
        Some("application/vnd.sap.as+xml; charset=UTF-8; dataname=com.sap.adt.transport.service.checkData"@),
        Some("application/vnd.sap.as+xml;charset=UTF-8;dataname=com.sap.adt.transport.service.checkData"@),
    )
}

/// The request that checks which transport an object's change needs
/// (object and package must be given).
pub fn transport_check_request(object_url: Option<String>, dev_class: Option<String>, tool_name: &str) -> (r: Result<
    RawRequest,
    NeuroMcpError,
>)
    ensures
        match (object_url, dev_class) {
            (None, _) => r matches Err(NeuroMcpError::InvalidArguments { tool, message }) && tool@
                == tool_name@ && message@ == "objectUrl/object_url is required"@,
            (Some(_), None) => r matches Err(NeuroMcpError::InvalidArguments { tool, message })
                && tool@ == tool_name@ && message@ == "devClass/dev_class is required"@,
            (Some(u), Some(d)) => r matches Ok(q) && request_view(q) == spec_transport_check_request(u@, d@),
        },
{
    let object_url = match object_url {
        Some(u) => u,
        None => {
            return Err(invalid_arguments(tool_name, "objectUrl/object_url is required"));
        },
    };
    let dev_class = match dev_class {
        Some(d) => d,
        None => {
            return Err(invalid_arguments(tool_name, "devClass/dev_class is required"));
        },
    };
    let mut body = concat(
        "<?xml version=\"1.0\" encoding=\"utf-8\"?>\n<asx:abap xmlns:asx=\"http://www.sap.com/abapxml\" version=\"1.0\">\n  <asx:values>\n    <DATA>\n      <DEVCLASS>",
        escape_xml(dev_class.as_str()).as_str(),
    );
    append(&mut body, "</DEVCLASS>\n      <OPERATION>I</OPERATION>\n      <URI>");
    append(&mut body, escape_xml(object_url.as_str()).as_str());
    append(&mut body, "</URI>\n    </DATA>\n  </asx:values>\n</asx:abap>");
    Ok(RawRequest {
        method: HttpMethod::Post,
        path: owned("/sap/bc/adt/cts/transportchecks"),
        body: Some(body),
        content_type: Some(owned(
            "application/vnd.sap.as+xml; charset=UTF-8; dataname=com.sap.adt.transport.service.checkData",
        )),
        accept: Some(owned("application/vnd.sap.as+xml;charset=UTF-8;dataname=com.sap.adt.transport.service.checkData")),
    })
}

/// The user whose requests are listed: the one given, else the configured
/// SAP user, trimmed and upper-cased (empty when neither is known).
pub open spec fn listing_user(user: Option<Seq<char>>, env_user: Option<Seq<char>>) -> Seq<char> {
    match user {
        Some(u) => canon(u),
        None => match env_user {
            Some(e) => canon(e),
            None => Seq::empty(),
        },
    }
}

/// The request that lists transport requests, for one user when known.
pub open spec fn spec_list_transports_request(user: Seq<char>) -> RequestView {
    (
        HttpMethod::Get,
        if user.len() == 0 {
            "/sap/bc/adt/cts/transportrequests"@
        } else {
            with_query("/sap/bc/adt/cts/transportrequests"@, seq![("user"@, user)])
        },
        None,
        None,
        Some("application/vnd.sap.adt.transportorganizertree.v1+xml"@),
    )
}

/// The request that lists transport requests, with the user it lists for.
pub fn list_transports_request(user: Option<String>, env_user: Option<String>) -> (r: (RawRequest, String))
    ensures
        r.1@ == listing_user(opt_text(user), opt_text(env_user)),
        request_view(r.0) == spec_list_transports_request(r.1@),
{
    let chosen = match user {
        Some(u) => canon_string(u.as_str()),
        None => match env_user {
            Some(e) => canon_string(e.as_str()),
            None => String::new(),
        },
    };
    let path = if chosen.as_str().is_empty() {
        owned("/sap/bc/adt/cts/transportrequests")
    } else {
        let mut query: Vec<(String, String)> = Vec::new();
        query.push((owned("user"), chosen.clone()));
        assert(pairs_view(query@) =~= seq![("user"@, chosen@)]);
        build_path_with_query("/sap/bc/adt/cts/transportrequests", &query)
    };
    let request = RawRequest {
        method: HttpMethod::Get,
        path,
        body: None,
        content_type: None,
        accept: Some(owned("application/vnd.sap.adt.transportorganizertree.v1+xml")),
    };
    (request, chosen)
}

/// The URL of a transport request (its number trimmed and upper-cased).
pub open spec fn transport_url(number: Seq<char>) -> Seq<char> {
    "/sap/bc/adt/cts/transportrequests/"@ + enc(canon(number))
}

fn transport_url_text(number: &str) -> (r: String)
    ensures
        r@ == transport_url(number@),
{
    let upper = canon_string(number);
    concat("/sap/bc/adt/cts/transportrequests/", encode_path_segment(upper.as_str()).as_str())
}

/// What is done with one transport request.
#[derive(Clone, Copy, Debug, PartialEq, Eq, Structural)]
pub enum TransportVerb {
    Read,
    Delete,
}

/// The request that reads or deletes a transport request.
pub open spec fn spec_transport_request(verb: TransportVerb, number: Seq<char>) -> RequestView {
    (
        match verb {
            TransportVerb::Read => HttpMethod::Get,
            TransportVerb::Delete => HttpMethod::Delete,
        },
        transport_url(number),
        None,
        None,
        Some("application/vnd.sap.adt.transportorganizer.v1+xml"@),
    )
}

/// The request that reads or deletes a transport request (its number must
/// be given).
pub fn transport_request(verb: TransportVerb, number: Option<String>, tool_name: &str) -> (r: Result<RawRequest, NeuroMcpError>)
    ensures
        match number {
            None => r matches Err(NeuroMcpError::InvalidArguments { tool, message }) && tool@
                == tool_name@ && message@ == "transport is required"@,
            Some(n) => r matches Ok(q) && request_view(q) == spec_transport_request(verb, n@),
        },
{
    let number = match number {
        Some(n) => n,
        None => {
            return Err(invalid_arguments(tool_name, "transport is required"));
        },
    };
    let method = match verb {
        TransportVerb::Read => HttpMethod::Get,
        TransportVerb::Delete => HttpMethod::Delete,
    };
    Ok(RawRequest {
        method,
        path: transport_url_text(number.as_str()),
        body: None,
        content_type: None,
        accept: Some(owned("application/vnd.sap.adt.transportorganizer.v1+xml")),
    })
}

/// The request kind: `W` for customizing, `K` for workbench.
pub open spec fn request_kind(request_type: Option<Seq<char>>) -> Seq<char> {
    let t = match request_type {
        Some(t) => t,
        None => Seq::empty(),
    };
    if lower_seq(t) == lower_seq("customizing"@) {
        "W"@
    } else {
        "K"@
    }
}

/// The body that creates a transport request for a package.
pub open spec fn create_transport_body(description: Seq<char>, kind: Seq<char>, package: Seq<char>) -> Seq<char> {
    "<?xml version=\"1.0\" encoding=\"UTF-8\"?>\n<tm:root xmlns:tm=\"http://www.sap.com/cts/adt/tm\">\n  <tm:request tm:desc=\""@
        + spec_escape_xml(description) + "\" tm:type=\""@ + kind
        + "\" tm:target=\"\" tm:cts_project=\"\">\n    <tm:abap_object tm:pgmid=\"R3TR\" tm:type=\"DEVC\" tm:name=\""@
        + spec_escape_xml(canon(package)) + "\"/>\n  </tm:request>\n</tm:root>"@
}

/// The transport layer as a query pair, when one is given and not blank.
pub open spec fn layer_pairs(layer: Option<Seq<char>>) -> Seq<(Seq<char>, Seq<char>)> {
    match layer {
        Some(l) => if trim_seq(l).len() > 0 {
            seq![("transportLayer"@, l)]
        } else {
            Seq::empty()
        },
        None => Seq::empty(),
    }
}

/// The request that creates a transport request.
pub open spec fn spec_create_transport_request(
    description: Seq<char>,
    package: Seq<char>,
    request_type: Option<Seq<char>>,
    layer: Option<Seq<char>>,
) -> RequestView {
    (
        HttpMethod::Post,
        with_query("/sap/bc/adt/cts/transports"@, layer_pairs(layer)),
        Some(create_transport_body(description, request_kind(request_type), package)),
        Some("application/vnd.sap.as+xml"@),
        Some("text/plain"@),
    )
}

/// The request that creates a transport request (description and package
/// must be given).
pub fn create_transport_request(
    description: Option<String>,
    package: Option<String>,
    request_type: Option<String>,
    transport_layer: Option<String>,
    tool_name: &str,
) -> (r: Result<RawRequest, NeuroMcpError>)
    ensures
        match (description, package) {
            (None, _) => r matches Err(NeuroMcpError::InvalidArguments { tool, message }) && tool@
                == tool_name@ && message@ == "description is required"@,
            (Some(_), None) => r matches Err(NeuroMcpError::InvalidArguments { tool, message })
                && tool@ == tool_name@ && message@ == "package is required"@,
            (Some(d), Some(p)) => r matches Ok(q) && request_view(q) == spec_create_transport_request(
                d@,
                p@,
                opt_text(request_type),
                opt_text(transport_layer),
            ),
        },
{
    let description = match description {
        Some(d) => d,
        None => {
            return Err(invalid_arguments(tool_name, "description is required"));
        },
    };
    let package = match package {
        Some(p) => p,
        None => {
            return Err(invalid_arguments(tool_name, "package is required"));
        },
    };
    let customizing = match &request_type {
        Some(t) => eq_ignore_case(t.as_str(), "customizing"),
        None => false,
    };
    proof {
        reveal_strlit("customizing");
        assert(lower_seq(Seq::<char>::empty()).len() == 0);
        assert(lower_seq("customizing"@).len() == 11);
    }
    let kind = if customizing {
        "W"
    } else {
        "K"
    };
    assert(kind@ == request_kind(opt_text(request_type)));
    let mut query: Vec<(String, String)> = Vec::new();
    match transport_layer {
        Some(layer) => {
            let cleaned = trim(layer.as_str());
            if !cleaned.as_str().is_empty() {
                query.push((owned("transportLayer"), layer));
            }
        },
        None => {},
    }
    assert(pairs_view(query@) =~= layer_pairs(opt_text(transport_layer)));
    let path = build_path_with_query("/sap/bc/adt/cts/transports", &query);
    let mut body = concat(
        "<?xml version=\"1.0\" encoding=\"UTF-8\"?>\n<tm:root xmlns:tm=\"http://www.sap.com/cts/adt/tm\">\n  <tm:request tm:desc=\"",
        escape_xml(description.as_str()).as_str(),
    );
    append(&mut body, "\" tm:type=\"");
    append(&mut body, kind);
    append(&mut body, "\" tm:target=\"\" tm:cts_project=\"\">\n    <tm:abap_object tm:pgmid=\"R3TR\" tm:type=\"DEVC\" tm:name=\"");
    let package_name = canon_string(package.as_str());
    append(&mut body, escape_xml(package_name.as_str()).as_str());
    append(&mut body, "\"/>\n  </tm:request>\n</tm:root>");
    assert(body@ == create_transport_body(description@, request_kind(opt_text(request_type)), package@));
    Ok(RawRequest {
        method: HttpMethod::Post,
        path,
        body: Some(body),
        content_type: Some(owned("application/vnd.sap.as+xml")),
        accept: Some(owned("text/plain")),
    })
}

/// The release action: skipping the ATC check wins over ignoring locks;
/// otherwise a plain release.
pub open spec fn release_action(skip_atc: Option<bool>, ignore_locks: Option<bool>) -> Seq<char> {
    if skip_atc == Some(true) {
        "relObjigchkatc"@
    } else if ignore_locks == Some(true) {
        "relwithignlock"@
    } else {
        "newreleasejobs"@
    }
}

/// The request that releases a transport request.
pub open spec fn spec_release_transport_request(number: Seq<char>, action: Seq<char>) -> RequestView {
    (
        HttpMethod::Post,
        transport_url(number) + "/"@ + action,
        None,
        None,
        Some("application/vnd.sap.adt.transportorganizer.v1+xml"@),
    )
}

/// The request that releases a transport request (its number must be
/// given), with the release action.
pub fn release_transport_request(
    number: Option<String>,
    skip_atc: Option<bool>,
    ignore_locks: Option<bool>,
    tool_name: &str,
) -> (r: Result<(RawRequest, &'static str), NeuroMcpError>)
    ensures
        match number {
            None => r matches Err(NeuroMcpError::InvalidArguments { tool, message }) && tool@
                == tool_name@ && message@ == "transport is required"@,
            Some(n) => r matches Ok((q, a)) && a@ == release_action(skip_atc, ignore_locks)
                && request_view(q) == spec_release_transport_request(n@, a@),
        },
{
    let number = match number {
        Some(n) => n,
        None => {
            return Err(invalid_arguments(tool_name, "transport is required"));
        },
    };
    let action: &'static str = if skip_atc == Some(true) {
        "relObjigchkatc"
    } else if ignore_locks == Some(true) {
        "relwithignlock"
    } else {
        "newreleasejobs"
    };
    let mut path = transport_url_text(number.as_str());
    append(&mut path, "/");
    append(&mut path, action);
    let request = RawRequest {
        method: HttpMethod::Post,
        path,
        body: None,
        content_type: None,
        accept: Some(owned("application/vnd.sap.adt.transportorganizer.v1+xml")),
    };
    Ok((request, action))
}

} // verus!
