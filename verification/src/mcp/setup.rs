//! Packages, service bindings, system queries, type hierarchies and the
//! installation tools: their arguments and requests.
use vstd::prelude::*;

use crate::errors::NeuroMcpError;
use crate::mcp::create::{invalid_arguments, with_query, CreateObjectArgs};
use crate::mcp::lookups::at_least_one;
use crate::mcp::paths::build_path_with_query;
use crate::mcp::requests::{pairs_view, request_view, HttpMethod, RawRequest, RequestView};
use crate::mcp::xmltext::{escape_xml, spec_escape_xml};
use crate::text::{
    append, concat, decimal, decimal_string, lower_seq, owned, starts_with_char, str_eq, to_lower,
    to_upper, trim, trim_seq, upper_seq,
};
use crate::xml::opt_text;

verus! {

/// The creation of a package: a `DEVC/K` object with the given name,
/// description, parent (empty when none) and software component; the
/// transport request only when not blank.
pub open spec fn package_args_ok(a: CreateObjectArgs, name: Seq<char>, description: Seq<char>, parent: Option<Seq<char>>, transport: Option<Seq<char>>, component: Option<Seq<char>>) -> bool {
    let t = match transport {
        Some(t) => t,
        None => Seq::empty(),
    };
    &&& opt_text(a.object_type) == Some("DEVC/K"@)
    &&& opt_text(a.name) == Some(name)
    &&& opt_text(a.description) == Some(description)
    &&& opt_text(a.package_name) == Some(
        match parent {
            Some(p) => p,
            None => Seq::empty(),
        },
    )
    &&& opt_text(a.transport) == if trim_seq(t).len() == 0 {
        None
    } else {
        Some(t)
    }
    &&& a.parent_name is None && a.responsible is None && a.service_definition is None
    &&& a.binding_type is None && a.binding_version is None && a.binding_category is None
    &&& opt_text(a.software_component) == component
}

/// A package that is not local (its name does not start with `$` after
/// leading blanks) needs a transport request.
pub open spec fn is_local_package(name: Seq<char>) -> bool {
    let t = crate::text::trim_start_seq(name);
    t.len() > 0 && t[0] == '$'
}

/// The creation of a package (name and description must be given; a
/// package that is not local needs a transport request).
pub fn package_args(
    name: Option<String>,
    description: Option<String>,
    parent: Option<String>,
    transport: Option<String>,
    software_component: Option<String>,
    tool_name: &str,
) -> (r: Result<CreateObjectArgs, NeuroMcpError>)
    ensures
        match (name, description) {
            (None, _) => r matches Err(NeuroMcpError::InvalidArguments { tool, message }) && tool@
                == tool_name@ && message@ == "name is required"@,
            (Some(_), None) => r matches Err(NeuroMcpError::InvalidArguments { tool, message })
                && tool@ == tool_name@ && message@ == "description is required"@,
            (Some(n), Some(d)) => {
                let t = match transport {
                    Some(t) => t@,
                    None => Seq::empty(),
                };
                if !is_local_package(n@) && trim_seq(t).len() == 0 {
                    r matches Err(NeuroMcpError::InvalidArguments { tool, message }) && tool@ == tool_name@
                        && message@ == "transport is required for transportable packages (non-$ packages)"@
                } else {
                    r matches Ok(a) && package_args_ok(a, n@, d@, opt_text(parent), opt_text(transport), opt_text(software_component))
                }
            },
        },
{
    let name = match name {
        Some(n) => n,
        None => {
            return Err(invalid_arguments(tool_name, "name is required"));
        },
    };
    let description = match description {
        Some(d) => d,
        None => {
            return Err(invalid_arguments(tool_name, "description is required"));
        },
    };
    let package_name = match parent {
        Some(p) => p,
        None => String::new(),
    };
    let transport = match transport {
        Some(t) => t,
        None => String::new(),
    };
    let blank = trim(transport.as_str()).as_str().is_empty();
    let local = starts_with_char(crate::text::trim_start(name.as_str()).as_str(), '$');
    if !local && blank {
        return Err(invalid_arguments(tool_name, "transport is required for transportable packages (non-$ packages)"));
    }
    Ok(CreateObjectArgs {
        object_type: Some(owned("DEVC/K")),
        name: Some(name),
        description: Some(description),
        package_name: Some(package_name),
        transport: if blank {
            None
        } else {
            Some(transport)
        },
        parent_name: None,
        responsible: None,
        software_component,
        service_definition: None,
        binding_type: None,
        binding_version: None,
        binding_category: None,
    })
}

/// The body that names the service of a binding.
pub open spec fn binding_body(service_name: Seq<char>) -> Seq<char> {
    "<adtcore:objectReferences xmlns:adtcore=\"http://www.sap.com/adt/core\">\n  <adtcore:objectReference adtcore:name=\""@
        + spec_escape_xml(service_name) + "\"/>\n</adtcore:objectReferences>"@
}

/// The request that publishes (or unpublishes) a service binding.
pub open spec fn spec_binding_request(publish: bool, service_name: Seq<char>, service_version: Seq<char>) -> RequestView {
    (
        HttpMethod::Post,
        with_query(
            if publish {
                "/sap/bc/adt/businessservices/odatav2/publishjobs"@
            } else {
                "/sap/bc/adt/businessservices/odatav2/unpublishjobs"@
            },
            seq![("servicename"@, service_name), ("serviceversion"@, service_version)],
        ),
        Some(binding_body(service_name)),
        Some("application/*"@),
        Some("application/*"@),
    )
}

/// The request that publishes or unpublishes a service binding (the
/// service must be named; version `0001` unless given), with the version
/// used.
pub fn binding_request(publish: bool, service_name: Option<String>, service_version: Option<String>, tool_name: &str) -> (r: Result<
    (RawRequest, String),
    NeuroMcpError,
>)
    ensures
        match service_name {
            None => r matches Err(NeuroMcpError::InvalidArguments { tool, message }) && tool@
                == tool_name@ && message@ == "serviceName/service_name is required"@,
            Some(n) => r matches Ok((q, v)) && v@ == (match service_version {
                Some(x) => x@,
                None => "0001"@,
            }) && request_view(q) == spec_binding_request(publish, n@, v@),
        },
{
    let service_name = match service_name {
        Some(n) => n,
        None => {
            return Err(invalid_arguments(tool_name, "serviceName/service_name is required"));
        },
    };
    let version = match service_version {
        Some(v) => v,
        None => owned("0001"),
    };
    let base = if publish {
        "/sap/bc/adt/businessservices/odatav2/publishjobs"
    } else {
        "/sap/bc/adt/businessservices/odatav2/unpublishjobs"
    };
    let mut query: Vec<(String, String)> = Vec::new();
    query.push((owned("servicename"), owned(service_name.as_str())));
    query.push((owned("serviceversion"), owned(version.as_str())));
    assert(query@.len() == 2);
    assert(pairs_view(query@) =~= seq![("servicename"@, service_name@), ("serviceversion"@, version@)]);
    let path = build_path_with_query(base, &query);
    let mut body = concat(
        "<adtcore:objectReferences xmlns:adtcore=\"http://www.sap.com/adt/core\">\n  <adtcore:objectReference adtcore:name=\"",
        escape_xml(service_name.as_str()).as_str(),
    );
    append(&mut body, "\"/>\n</adtcore:objectReferences>");
    let request = RawRequest {
        method: HttpMethod::Post,
        path,
        body: Some(body),
        content_type: Some(owned("application/*")),
        accept: Some(owned("application/*")),
    };
    Ok((request, version))
}

/// The query that reads the client: all clients, or the configured one
/// when it is set and not blank.
pub open spec fn client_query(sap_client: Seq<char>) -> Seq<char> {
    if trim_seq(sap_client).len() == 0 {
        "SELECT MANDT, MTEXT, LOGSYS FROM T000"@
    } else {
        "SELECT MANDT, MTEXT, LOGSYS FROM T000 WHERE MANDT = '"@ + trim_seq(sap_client) + "'"@
    }
}

/// The queries of the system information, in order: the client, the
/// `SAP_BASIS` release, the `SAP_ABA` release and the HANA release.
pub open spec fn system_queries(sap_client: Seq<char>) -> Seq<Seq<char>> {
    seq![
        client_query(sap_client),
        "SELECT RELEASE, EXTRELEASE FROM CVERS WHERE COMPONENT = 'SAP_BASIS'"@,
        "SELECT RELEASE FROM CVERS WHERE COMPONENT = 'SAP_ABA'"@,
        "SELECT RELEASE FROM CVERS WHERE COMPONENT LIKE '%HDB%' OR COMPONENT LIKE '%HANA%'"@,
    ]
}

/// The queries of the system information, for the configured client.
pub fn system_info_queries(sap_client: &str) -> (r: Vec<String>)
    ensures
        r@.map_values(|q: String| q@) == system_queries(sap_client@),
{
    let cleaned = trim(sap_client);
    let first = if cleaned.as_str().is_empty() {
        owned("SELECT MANDT, MTEXT, LOGSYS FROM T000")
    } else {
        let mut q = concat("SELECT MANDT, MTEXT, LOGSYS FROM T000 WHERE MANDT = '", cleaned.as_str());
        append(&mut q, "'");
        q
    };
    let mut out: Vec<String> = Vec::new();
    out.push(first);
    out.push(owned("SELECT RELEASE, EXTRELEASE FROM CVERS WHERE COMPONENT = 'SAP_BASIS'"));
    out.push(owned("SELECT RELEASE FROM CVERS WHERE COMPONENT = 'SAP_ABA'"));
    out.push(owned("SELECT RELEASE FROM CVERS WHERE COMPONENT LIKE '%HDB%' OR COMPONENT LIKE '%HANA%'"));
    assert(out@.map_values(|q: String| q@) =~= system_queries(sap_client@));
    out
}

/// The request that runs a free-style query for one row.
pub open spec fn spec_freestyle_request(query: Seq<char>) -> RequestView {
    (
        HttpMethod::Post,
        with_query("/sap/bc/adt/datapreview/freestyle"@, seq![("rowNumber"@, "1"@)]),
        Some(query),
        Some("text/plain"@),
        Some("application/*"@),
    )
}

/// The request that runs a free-style query for one row.
pub fn freestyle_request(query: &str) -> (r: RawRequest)
    ensures
        request_view(r) == spec_freestyle_request(query@),
{
    let mut pairs: Vec<(String, String)> = Vec::new();
    pairs.push((owned("rowNumber"), owned("1")));
    assert(pairs_view(pairs@) =~= seq![("rowNumber"@, "1"@)]);
    let path = build_path_with_query("/sap/bc/adt/datapreview/freestyle", &pairs);
    RawRequest {
        method: HttpMethod::Post,
        path,
        body: Some(owned(query)),
        content_type: Some(owned("text/plain")),
        accept: Some(owned("application/*")),
    }
}

/// The request that reads the type hierarchy at a position of a source.
pub open spec fn spec_type_hierarchy_request(source_url: Seq<char>, source: Seq<char>, line: u32, column: u32, super_types: bool) -> RequestView {
    (
        HttpMethod::Post,
        with_query(
            "/sap/bc/adt/abapsource/typehierarchy"@,
            seq![
                ("uri"@, source_url + "#start="@ + decimal(at_least_one(line)) + ","@ + decimal(at_least_one(column))),
                ("type"@, if super_types { "superTypes"@ } else { "subTypes"@ }),
            ],
        ),
        Some(source),
        Some("text/plain"@),
        Some("application/*"@),
    )
}

/// The request that reads the type hierarchy at a position (source URL,
/// source, line and column must be given; sub-types unless super-types are
/// asked for), with the line, column and direction used.
pub fn type_hierarchy_request(
    source_url: Option<String>,
    source: Option<String>,
    line: Option<u32>,
    column: Option<u32>,
    super_types: Option<bool>,
    tool_name: &str,
) -> (r: Result<(RawRequest, u32, u32, &'static str), NeuroMcpError>)
    ensures
        match (source_url, source, line, column) {
            (None, _, _, _) => r matches Err(NeuroMcpError::InvalidArguments { tool, message }) && tool@
                == tool_name@ && message@ == "source_url is required"@,
            (Some(_), None, _, _) => r matches Err(NeuroMcpError::InvalidArguments { tool, message })
                && tool@ == tool_name@ && message@ == "source is required"@,
            (Some(_), Some(_), None, _) => r matches Err(NeuroMcpError::InvalidArguments { tool, message })
                && tool@ == tool_name@ && message@ == "line is required"@,
            (Some(_), Some(_), Some(_), None) => r matches Err(NeuroMcpError::InvalidArguments { tool, message })
                && tool@ == tool_name@ && message@ == "column is required"@,
            (Some(u), Some(s), Some(l), Some(c)) => r matches Ok((q, ln, col, kind)) && ln == at_least_one(l)
                && col == at_least_one(c) && kind@ == (if super_types == Some(true) {
                "superTypes"@
            } else {
                "subTypes"@
            }) && request_view(q) == spec_type_hierarchy_request(u@, s@, l, c, super_types == Some(true)),
        },
{
    let source_url = match source_url {
        Some(u) => u,
        None => {
            return Err(invalid_arguments(tool_name, "source_url is required"));
        },
    };
    let source = match source {
        Some(s) => s,
        None => {
            return Err(invalid_arguments(tool_name, "source is required"));
        },
    };
    let line = match line {
        Some(l) => if l < 1 {
            1
        } else {
            l
        },
        None => {
            return Err(invalid_arguments(tool_name, "line is required"));
        },
    };
    let column = match column {
        Some(c) => if c < 1 {
            1
        } else {
            c
        },
        None => {
            return Err(invalid_arguments(tool_name, "column is required"));
        },
    };
    let kind: &'static str = if super_types == Some(true) {
        "superTypes"
    } else {
        "subTypes"
    };
    let mut uri = concat(source_url.as_str(), "#start=");
    append(&mut uri, decimal_string(line as u64).as_str());
    append(&mut uri, ",");
    append(&mut uri, decimal_string(column as u64).as_str());
    let ghost want = uri@;
    let mut query: Vec<(String, String)> = Vec::new();
    query.push((owned("uri"), uri));
    query.push((owned("type"), owned(kind)));
    assert(query@.len() == 2);
    assert(pairs_view(query@) =~= seq![("uri"@, want), ("type"@, kind@)]);
    let path = build_path_with_query("/sap/bc/adt/abapsource/typehierarchy", &query);
    let request = RawRequest {
        method: HttpMethod::Post,
        path,
        body: Some(source),
        content_type: Some(owned("text/plain")),
        accept: Some(owned("application/*")),
    };
    Ok((request, line, column, kind))
}

/// The abapGit edition and package: the edition (lower-cased) must be
/// `standalone` (the default) or `dev`; the package defaults by edition
/// and is upper-cased.
pub open spec fn abap_git_plan_spec(edition: Option<Seq<char>>, package: Option<Seq<char>>) -> Option<(Seq<char>, Seq<char>)> {
    let e = match edition {
        Some(x) => lower_seq(x),
        None => "standalone"@,
    };
    if e != "standalone"@ && e != "dev"@ {
        None
    } else {
        Some(
            (
                e,
                upper_seq(
                    match package {
                        Some(p) => p,
                        None => if e == "standalone"@ {
                            "$ABAPGIT"@
                        } else {
                            "$ZGIT_DEV"@
                        },
                    },
                ),
            ),
        )
    }
}

/// The abapGit edition and package of an installation.
pub fn abap_git_plan(edition: Option<String>, package: Option<String>, tool_name: &str) -> (r: Result<(String, String), NeuroMcpError>)
    ensures
        match abap_git_plan_spec(opt_text(edition), opt_text(package)) {
            None => r matches Err(NeuroMcpError::InvalidArguments { tool, message }) && tool@
                == tool_name@ && message@ == "edition must be 'standalone' or 'dev'"@,
            Some((e, p)) => r matches Ok((x, y)) && x@ == e && y@ == p,
        },
{
    let e = match edition {
        Some(x) => to_lower(x.as_str()),
        None => owned("standalone"),
    };
    let standalone = str_eq(e.as_str(), "standalone");
    if !standalone && !str_eq(e.as_str(), "dev") {
        return Err(invalid_arguments(tool_name, "edition must be 'standalone' or 'dev'"));
    }
    let p = match package {
        Some(p) => p,
        None => if standalone {
            owned("$ABAPGIT")
        } else {
            owned("$ZGIT_DEV")
        },
    };
    Ok((e, to_upper(p.as_str())))
}

/// The package of the ZADT_VSP installation: `$ZADT_VSP` unless given,
/// upper-cased; it must be local (start with `$`).
pub fn vsp_package(package: Option<String>, tool_name: &str) -> (r: Result<String, NeuroMcpError>)
    ensures
        ({
            let p = upper_seq(
                match package {
                    Some(x) => x@,
                    None => "$ZADT_VSP"@,
                },
            );
            if p.len() > 0 && p[0] == '$' {
                r matches Ok(x) && x@ == p
            } else {
                r matches Err(NeuroMcpError::InvalidArguments { tool, message }) && tool@ == tool_name@
                    && message@ == "package must start with $ for local installation"@
            }
        }),
{
    let p = match package {
        Some(x) => to_upper(x.as_str()),
        None => to_upper("$ZADT_VSP"),
    };
    if starts_with_char(p.as_str(), '$') {
        Ok(p)
    } else {
        Err(invalid_arguments(tool_name, "package must start with $ for local installation"))
    }
}

} // verus!
