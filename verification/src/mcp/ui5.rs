//! The ADT requests behind the UI5 tools: the applications in the BSP
//! file store and their files.
use vstd::prelude::*;

use crate::errors::NeuroMcpError;
use crate::mcp::create::{invalid_arguments, with_query};
use crate::mcp::encode::encode_path_segment;
use crate::mcp::paths::{build_path_with_query, build_ui5_file_content_path, canon, canon_string, enc, spec_ui5_file_content_path};
use crate::mcp::requests::{pairs_view, request_view, HttpMethod, RawRequest, RequestView};
use crate::mcp::xmltext::{escape_xml, spec_escape_xml};
use crate::text::{append, concat, decimal, decimal_string, owned, strip_start, strip_start_char, trim, trim_seq};
use crate::xml::opt_text;

verus! {

/// The file store collection.
pub open spec fn store() -> Seq<char> {
    "/sap/bc/adt/filestore/ui5-bsp/objects"@
}

/// The query of an application listing: the limit (100 unless another
/// positive one is given), then the name filter when given and not blank.
pub open spec fn listing_query(max_results: Option<u32>, name: Option<Seq<char>>) -> Seq<(Seq<char>, Seq<char>)> {
    let limit = match max_results {
        Some(m) => if m < 1 {
            1nat
        } else {
            m as nat
        },
        None => 100nat,
    };
    seq![("maxResults"@, decimal(limit))] + match name {
        Some(n) => if trim_seq(n).len() > 0 {
            seq![("name"@, n)]
        } else {
            Seq::empty()
        },
        None => Seq::empty(),
    }
}

/// The request that lists applications.
pub open spec fn spec_list_apps_request(max_results: Option<u32>, name: Option<Seq<char>>) -> RequestView {
    (HttpMethod::Get, with_query(store(), listing_query(max_results, name)), None, None, Some("application/atom+xml"@))
}

/// The request that lists applications.
pub fn list_apps_request(max_results: Option<u32>, name: Option<String>) -> (r: RawRequest)
    ensures
        request_view(r) == spec_list_apps_request(max_results, opt_text(name)),
{
    let limit: u32 = match max_results {
        Some(m) => if m < 1 {
            1
        } else {
            m
        },
        None => 100,
    };
    let mut query: Vec<(String, String)> = Vec::new();
    query.push((owned("maxResults"), decimal_string(limit as u64)));
    match name {
        Some(n) => {
            let cleaned = trim(n.as_str());
            if !cleaned.as_str().is_empty() {
                query.push((owned("name"), n));
            }
        },
        None => {},
    }
    assert(pairs_view(query@) =~= listing_query(max_results, opt_text(name)));
    let path = build_path_with_query("/sap/bc/adt/filestore/ui5-bsp/objects", &query);
    RawRequest { method: HttpMethod::Get, path, body: None, content_type: None, accept: Some(owned("application/atom+xml")) }
}

/// The URL of an application (its name trimmed and upper-cased).
pub open spec fn app_url(app_name: Seq<char>) -> Seq<char> {
    "/sap/bc/adt/filestore/ui5-bsp/objects/"@ + enc(canon(app_name))
}

fn app_url_text(app_name: &str) -> (r: String)
    ensures
        r@ == app_url(app_name@),
{
    let upper = canon_string(app_name);
    concat("/sap/bc/adt/filestore/ui5-bsp/objects/", encode_path_segment(upper.as_str()).as_str())
}

/// The request that reads an application's contents.
pub open spec fn spec_app_request(app_name: Seq<char>) -> RequestView {
    (HttpMethod::Get, app_url(app_name) + "/content"@, None, None, Some("application/atom+xml"@))
}

/// The request that reads an application's contents (its name must be
/// given), with the name as sent.
pub fn app_request(app_name: Option<String>, tool_name: &str) -> (r: Result<(RawRequest, String), NeuroMcpError>)
    ensures
        match app_name {
            None => r matches Err(NeuroMcpError::InvalidArguments { tool, message }) && tool@
                == tool_name@ && message@ == "app_name is required"@,
            Some(a) => r matches Ok((q, name)) && request_view(q) == spec_app_request(a@) && name@ == canon(a@),
        },
{
    let app_name = match app_name {
        Some(a) => a,
        None => {
            return Err(invalid_arguments(tool_name, "app_name is required"));
        },
    };
    let mut path = app_url_text(app_name.as_str());
    append(&mut path, "/content");
    let request = RawRequest {
        method: HttpMethod::Get,
        path,
        body: None,
        content_type: None,
        accept: Some(owned("application/atom+xml")),
    };
    Ok((request, canon_string(app_name.as_str())))
}

/// The UI5 file tools.
#[derive(Clone, Copy, Debug, PartialEq, Eq, Structural)]
pub enum FileVerb {
    Read,
    Delete,
}

/// The URL of a file of an application, without the content suffix.
pub open spec fn file_url(app_name: Seq<char>, file_path: Seq<char>) -> Seq<char> {
    "/sap/bc/adt/filestore/ui5-bsp/objects/"@ + enc(canon(app_name) + "/"@ + strip_start_char(trim_seq(file_path), '/'))
}

/// The request that reads (its content) or deletes a file.
pub open spec fn spec_file_request(verb: FileVerb, app_name: Seq<char>, file_path: Seq<char>) -> RequestView {
    match verb {
        FileVerb::Read => (HttpMethod::Get, spec_ui5_file_content_path(app_name, file_path), None, None, None),
        FileVerb::Delete => (HttpMethod::Delete, file_url(app_name, file_path), None, None, None),
    }
}

/// The request that reads or deletes a file (application and path must
/// be given).
pub fn file_request(verb: FileVerb, app_name: Option<String>, file_path: Option<String>, tool_name: &str) -> (r: Result<
    RawRequest,
    NeuroMcpError,
>)
    ensures
        match (app_name, file_path) {
            (None, _) => r matches Err(NeuroMcpError::InvalidArguments { tool, message }) && tool@
                == tool_name@ && message@ == "app_name is required"@,
            (Some(_), None) => r matches Err(NeuroMcpError::InvalidArguments { tool, message })
                && tool@ == tool_name@ && message@ == "file_path is required"@,
            (Some(a), Some(f)) => r matches Ok(q) && request_view(q) == spec_file_request(verb, a@, f@),
        },
{
    let app_name = match app_name {
        Some(a) => a,
        None => {
            return Err(invalid_arguments(tool_name, "app_name is required"));
        },
    };
    let file_path = match file_path {
        Some(f) => f,
        None => {
            return Err(invalid_arguments(tool_name, "file_path is required"));
        },
    };
    match verb {
        FileVerb::Read => Ok(RawRequest {
            method: HttpMethod::Get,
            path: build_ui5_file_content_path(app_name.as_str(), file_path.as_str()),
            body: None,
            content_type: None,
            accept: None,
        }),
        FileVerb::Delete => {
            let mut full = canon_string(app_name.as_str());
            append(&mut full, "/");
            append(&mut full, strip_start(trim(file_path.as_str()).as_str(), '/').as_str());
            let path = concat("/sap/bc/adt/filestore/ui5-bsp/objects/", encode_path_segment(full.as_str()).as_str());
            Ok(RawRequest { method: HttpMethod::Delete, path, body: None, content_type: None, accept: None })
        },
    }
}

/// The request that uploads a file's content (as
/// `application/octet-stream` unless a content type is given).
pub open spec fn spec_upload_request(app_name: Seq<char>, file_path: Seq<char>, content: Seq<char>, content_type: Option<Seq<char>>) -> RequestView {
    (
        HttpMethod::Put,
        spec_ui5_file_content_path(app_name, file_path),
        Some(content),
        Some(
            match content_type {
                Some(t) => t,
                None => "application/octet-stream"@,
            },
        ),
        None,
    )
}

/// The request that uploads a file (application, path and content must be
/// given).
pub fn upload_request(
    app_name: Option<String>,
    file_path: Option<String>,
    content: Option<String>,
    content_type: Option<String>,
    tool_name: &str,
) -> (r: Result<RawRequest, NeuroMcpError>)
    ensures
        match (app_name, file_path, content) {
            (None, _, _) => r matches Err(NeuroMcpError::InvalidArguments { tool, message }) && tool@
                == tool_name@ && message@ == "app_name is required"@,
            (Some(_), None, _) => r matches Err(NeuroMcpError::InvalidArguments { tool, message })
                && tool@ == tool_name@ && message@ == "file_path is required"@,
            (Some(_), Some(_), None) => r matches Err(NeuroMcpError::InvalidArguments { tool, message })
                && tool@ == tool_name@ && message@ == "content is required"@,
            (Some(a), Some(f), Some(c)) => r matches Ok(q) && request_view(q) == spec_upload_request(
                a@,
                f@,
                c@,
                opt_text(content_type),
            ),
        },
{
    let app_name = match app_name {
        Some(a) => a,
        None => {
            return Err(invalid_arguments(tool_name, "app_name is required"));
        },
    };
    let file_path = match file_path {
        Some(f) => f,
        None => {
            return Err(invalid_arguments(tool_name, "file_path is required"));
        },
    };
    let content = match content {
        Some(c) => c,
        None => {
            return Err(invalid_arguments(tool_name, "content is required"));
        },
    };
    let kind = match content_type {
        Some(t) => t,
        None => owned("application/octet-stream"),
    };
    Ok(RawRequest {
        method: HttpMethod::Put,
        path: build_ui5_file_content_path(app_name.as_str(), file_path.as_str()),
        body: Some(content),
        content_type: Some(kind),
        accept: None,
    })
}

/// The transport request as a `corrNr` pair, when given and not blank.
pub open spec fn corr_pairs(transport: Option<Seq<char>>) -> Seq<(Seq<char>, Seq<char>)> {
    match transport {
        Some(t) => if trim_seq(t).len() > 0 {
            seq![("corrNr"@, t)]
        } else {
            Seq::empty()
        },
        None => Seq::empty(),
    }
}

fn corr_query(transport: Option<String>) -> (r: Vec<(String, String)>)
    ensures
        pairs_view(r@) == corr_pairs(opt_text(transport)),
{
    let mut query: Vec<(String, String)> = Vec::new();
    match transport {
        Some(t) => {
            let cleaned = trim(t.as_str());
            if !cleaned.as_str().is_empty() {
                query.push((owned("corrNr"), t));
            }
        },
        None => {},
    }
    assert(pairs_view(query@) =~= corr_pairs(opt_text(transport)));
    query
}

/// The body that creates an application.
pub open spec fn create_app_body(app_name: Seq<char>, description: Seq<char>, package_name: Seq<char>) -> Seq<char> {
    "<?xml version=\"1.0\" encoding=\"UTF-8\"?>\n<bsp:application xmlns:bsp=\"http://www.sap.com/adt/bsp\"\n    xmlns:adtcore=\"http://www.sap.com/adt/core\"\n    adtcore:name=\""@
        + spec_escape_xml(canon(app_name)) + "\"\n    adtcore:description=\""@ + spec_escape_xml(description)
        + "\"\n    adtcore:packageName=\""@ + spec_escape_xml(package_name) + "\">\n</bsp:application>"@
}

/// The request that creates an application.
pub open spec fn spec_create_app_request(
    app_name: Seq<char>,
    description: Seq<char>,
    package_name: Seq<char>,
    transport: Option<Seq<char>>,
) -> RequestView {
    (
        HttpMethod::Post,
        with_query(store(), corr_pairs(transport)),
        Some(create_app_body(app_name, description, package_name)),
        Some("application/xml"@),
        None,
    )
}

/// The request that creates an application (name, description and package
/// must be given), with the name as sent.
pub fn create_app_request(
    app_name: Option<String>,
    description: Option<String>,
    package_name: Option<String>,
    transport: Option<String>,
    tool_name: &str,
) -> (r: Result<(RawRequest, String), NeuroMcpError>)
    ensures
        match (app_name, description, package_name) {
            (None, _, _) => r matches Err(NeuroMcpError::InvalidArguments { tool, message }) && tool@
                == tool_name@ && message@ == "app_name is required"@,
            (Some(_), None, _) => r matches Err(NeuroMcpError::InvalidArguments { tool, message })
                && tool@ == tool_name@ && message@ == "description is required"@,
            (Some(_), Some(_), None) => r matches Err(NeuroMcpError::InvalidArguments { tool, message })
                && tool@ == tool_name@ && message@ == "package_name is required"@,
            (Some(a), Some(d), Some(p)) => r matches Ok((q, name)) && request_view(q) == spec_create_app_request(
                a@,
                d@,
                p@,
                opt_text(transport),
            ) && name@ == canon(a@),
        },
{
    let app_name = match app_name {
        Some(a) => a,
        None => {
            return Err(invalid_arguments(tool_name, "app_name is required"));
        },
    };
    let description = match description {
        Some(d) => d,
        None => {
            return Err(invalid_arguments(tool_name, "description is required"));
        },
    };
    let package_name = match package_name {
        Some(p) => p,
        None => {
            return Err(invalid_arguments(tool_name, "package_name is required"));
        },
    };
    let query = corr_query(transport);
    let path = build_path_with_query("/sap/bc/adt/filestore/ui5-bsp/objects", &query);
    let upper = canon_string(app_name.as_str());
    let mut body = concat(
        "<?xml version=\"1.0\" encoding=\"UTF-8\"?>\n<bsp:application xmlns:bsp=\"http://www.sap.com/adt/bsp\"\n    xmlns:adtcore=\"http://www.sap.com/adt/core\"\n    adtcore:name=\"",
        escape_xml(upper.as_str()).as_str(),
    );
    append(&mut body, "\"\n    adtcore:description=\"");
    append(&mut body, escape_xml(description.as_str()).as_str());
    append(&mut body, "\"\n    adtcore:packageName=\"");
    append(&mut body, escape_xml(package_name.as_str()).as_str());
    append(&mut body, "\">\n</bsp:application>");
    let request = RawRequest {
        method: HttpMethod::Post,
        path,
        body: Some(body),
        content_type: Some(owned("application/xml")),
        accept: None,
    };
    Ok((request, upper))
}

/// The request that deletes an application.
pub open spec fn spec_delete_app_request(app_name: Seq<char>, transport: Option<Seq<char>>) -> RequestView {
    (HttpMethod::Delete, with_query(app_url(app_name), corr_pairs(transport)), None, None, None)
}

/// The request that deletes an application (its name must be given), with
/// the name as sent.
pub fn delete_app_request(app_name: Option<String>, transport: Option<String>, tool_name: &str) -> (r: Result<
    (RawRequest, String),
    NeuroMcpError,
>)
    ensures
        match app_name {
            None => r matches Err(NeuroMcpError::InvalidArguments { tool, message }) && tool@
                == tool_name@ && message@ == "app_name is required"@,
            Some(a) => r matches Ok((q, name)) && request_view(q) == spec_delete_app_request(a@, opt_text(transport))
                && name@ == canon(a@),
        },
{
    let app_name = match app_name {
        Some(a) => a,
        None => {
            return Err(invalid_arguments(tool_name, "app_name is required"));
        },
    };
    let base = app_url_text(app_name.as_str());
    let query = corr_query(transport);
    let path = build_path_with_query(base.as_str(), &query);
    let request = RawRequest { method: HttpMethod::Delete, path, body: None, content_type: None, accept: None };
    Ok((request, canon_string(app_name.as_str())))
}

} // verus!
