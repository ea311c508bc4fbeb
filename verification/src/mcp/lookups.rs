//! The ADT requests behind the read-only and editor-assistance tools:
//! fixed lookups, object lookups by name, table previews, navigation,
//! references, code completion and the pretty printer.
use vstd::prelude::*;

use crate::errors::NeuroMcpError;
use crate::mcp::create::{invalid_arguments, with_query};
use crate::mcp::encode::{encode_path_segment, encode_query_value};
use crate::mcp::paths::{build_class_include_uri, build_path_with_query, build_source_uri, enc, spec_class_include_uri};
use crate::tools::{spec_path_pattern, SourcePattern};
use crate::mcp::requests::{pairs_view, request_view, HttpMethod, RawRequest, RequestView};
use crate::text::{
    append, concat, decimal, decimal_string, owned, to_unicode_lower,
    to_unicode_upper, to_upper, trim, trim_seq, unicode_lower, unicode_upper, upper_seq,
};
use crate::xml::opt_text;

verus! {

/// A lookup whose request never varies.
#[derive(Clone, Copy, Debug, PartialEq, Eq, Structural)]
pub enum FixedLookup {
    InstalledComponents,
    InactiveObjects,
    AtcCustomizing,
    PrettyPrinterSettings,
}

/// The path and accepted type of a fixed lookup.
pub open spec fn spec_fixed_lookup(k: FixedLookup) -> RequestView {
    match k {
        FixedLookup::InstalledComponents => (
            HttpMethod::Get,
            "/sap/bc/adt/system/components"@,
            None,
            None,
            Some("application/xml"@),
        ),
        FixedLookup::InactiveObjects => (
            HttpMethod::Get,
            "/sap/bc/adt/activation/inactiveobjects"@,
            None,
            None,
            Some("application/vnd.sap.adt.inactivectsobjects.v1+xml, application/xml;q=0.8"@),
        ),
        FixedLookup::AtcCustomizing => (
            HttpMethod::Get,
            "/sap/bc/adt/atc/customizing"@,
            None,
            None,
            Some("application/xml, application/vnd.sap.atc.customizing-v1+xml"@),
        ),
        FixedLookup::PrettyPrinterSettings => (
            HttpMethod::Get,
            "/sap/bc/adt/abapsource/prettyprinter/settings"@,
            None,
            None,
            None,
        ),
    }
}

/// The request of a fixed lookup.
pub fn fixed_lookup_request(k: FixedLookup) -> (r: RawRequest)
    ensures
        request_view(r) == spec_fixed_lookup(k),
{
    let (path, accept) = match k {
        FixedLookup::InstalledComponents => ("/sap/bc/adt/system/components", Some(owned("application/xml"))),
        FixedLookup::InactiveObjects => (
            "/sap/bc/adt/activation/inactiveobjects",
            Some(owned("application/vnd.sap.adt.inactivectsobjects.v1+xml, application/xml;q=0.8")),
        ),
        FixedLookup::AtcCustomizing => (
            "/sap/bc/adt/atc/customizing",
            Some(owned("application/xml, application/vnd.sap.atc.customizing-v1+xml")),
        ),
        FixedLookup::PrettyPrinterSettings => ("/sap/bc/adt/abapsource/prettyprinter/settings", None),
    };
    RawRequest { method: HttpMethod::Get, path: owned(path), body: None, content_type: None, accept }
}

/// The source URL of a function module in its group.
pub open spec fn spec_function_source_uri(function_name: Seq<char>, group_name: Seq<char>) -> Seq<char> {
    "/sap/bc/adt/functions/groups/"@ + enc(group_name) + "/fmodules/"@ + enc(function_name)
        + "/source/main"@
}

/// The source URL of a function module (module and group must be given).
pub fn function_source_uri(function_name: Option<String>, group_name: Option<String>, tool_name: &str) -> (r: Result<
    String,
    NeuroMcpError,
>)
    ensures
        match (function_name, group_name) {
            (None, _) => r matches Err(NeuroMcpError::InvalidArguments { tool, message }) && tool@
                == tool_name@ && message@ == "function name is required"@,
            (Some(_), None) => r matches Err(NeuroMcpError::InvalidArguments { tool, message })
                && tool@ == tool_name@ && message@ == "group name is required"@,
            (Some(f), Some(g)) => r matches Ok(u) && u@ == spec_function_source_uri(f@, g@),
        },
{
    let function_name = match function_name {
        Some(f) => f,
        None => {
            return Err(invalid_arguments(tool_name, "function name is required"));
        },
    };
    let group_name = match group_name {
        Some(g) => g,
        None => {
            return Err(invalid_arguments(tool_name, "group name is required"));
        },
    };
    let group = encode_path_segment(group_name.as_str());
    let function = encode_path_segment(function_name.as_str());
    let mut uri = concat("/sap/bc/adt/functions/groups/", group.as_str());
    append(&mut uri, "/fmodules/");
    append(&mut uri, function.as_str());
    append(&mut uri, "/source/main");
    Ok(uri)
}

/// The URL of a class section (class and section must be given).
pub fn class_section_uri(class_name: Option<String>, section: Option<String>, tool_name: &str) -> (r: Result<
    String,
    NeuroMcpError,
>)
    ensures
        match (class_name, section) {
            (None, _) => r matches Err(NeuroMcpError::InvalidArguments { tool, message }) && tool@
                == tool_name@ && message@ == "className/class_name is required"@,
            (Some(_), None) => r matches Err(NeuroMcpError::InvalidArguments { tool, message })
                && tool@ == tool_name@ && message@ == "includeType/include_type is required"@,
            (Some(c), Some(s)) => r matches Ok(u) && u@ == spec_class_include_uri(c@, s@),
        },
{
    let class_name = match class_name {
        Some(c) => c,
        None => {
            return Err(invalid_arguments(tool_name, "className/class_name is required"));
        },
    };
    let section = match section {
        Some(s) => s,
        None => {
            return Err(invalid_arguments(tool_name, "includeType/include_type is required"));
        },
    };
    Ok(build_class_include_uri(class_name.as_str(), section.as_str()))
}

/// The request that reads a message class (by its name, lower-cased by
/// Unicode's case mapping).
pub open spec fn spec_message_class_request(name: Seq<char>) -> RequestView {
    (
        HttpMethod::Get,
        "/sap/bc/adt/messageclass/"@ + enc(unicode_lower(name)),
        None,
        None,
        Some("application/vnd.sap.adt.mc.messageclass+xml"@),
    )
}

/// The request that reads a message class.
pub fn message_class_request(name: &str) -> (r: RawRequest)
    ensures
        request_view(r) == spec_message_class_request(name@),
{
    let lowered = to_unicode_lower(name);
    let encoded = encode_path_segment(lowered.as_str());
    RawRequest {
        method: HttpMethod::Get,
        path: concat("/sap/bc/adt/messageclass/", encoded.as_str()),
        body: None,
        content_type: None,
        accept: Some(owned("application/vnd.sap.adt.mc.messageclass+xml")),
    }
}

/// The request that lists a package's contents (by its name, upper-cased
/// by Unicode's case mapping).
pub open spec fn spec_package_request(name: Seq<char>) -> RequestView {
    (
        HttpMethod::Post,
        with_query(
            "/sap/bc/adt/repository/nodestructure"@,
            seq![
                ("parent_type"@, "DEVC/K"@),
                ("parent_name"@, unicode_upper(name)),
                ("withShortDescriptions"@, "true"@),
            ],
        ),
        None,
        None,
        None,
    )
}

/// The request that lists a package's contents, with the upper-cased name.
pub fn package_request(name: &str) -> (r: (RawRequest, String))
    ensures
        request_view(r.0) == spec_package_request(name@),
        r.1@ == unicode_upper(name@),
{
    let upper = to_unicode_upper(name);
    let mut query: Vec<(String, String)> = Vec::new();
    query.push((owned("parent_type"), owned("DEVC/K")));
    query.push((owned("parent_name"), upper.clone()));
    query.push((owned("withShortDescriptions"), owned("true")));
    assert(query@.len() == 3);
    assert(pairs_view(query@) =~= seq![
        ("parent_type"@, "DEVC/K"@),
        ("parent_name"@, unicode_upper(name@)),
        ("withShortDescriptions"@, "true"@),
    ]);
    let path = build_path_with_query("/sap/bc/adt/repository/nodestructure", &query);
    (RawRequest { method: HttpMethod::Post, path, body: None, content_type: None, accept: None }, upper)
}

/// The repository objects that are read by their name, upper-cased by
/// Unicode's case mapping.
#[derive(Clone, Copy, Debug, PartialEq, Eq, Structural)]
pub enum NamedLookup {
    Transaction,
    DataElement,
}

/// The collection a named lookup reads from.
pub open spec fn named_lookup_prefix(k: NamedLookup) -> Seq<char> {
    match k {
        NamedLookup::Transaction => "/sap/bc/adt/vit/wb/object_type/TRAN/object_name/"@,
        NamedLookup::DataElement => "/sap/bc/adt/ddic/dataelements/"@,
    }
}

/// The request of a named lookup.
pub open spec fn spec_named_lookup_request(k: NamedLookup, name: Seq<char>) -> RequestView {
    (
        HttpMethod::Get,
        named_lookup_prefix(k) + enc(unicode_upper(name)),
        None,
        None,
        Some("application/xml"@),
    )
}

/// The request of a named lookup, with the upper-cased name.
pub fn named_lookup_request(k: NamedLookup, name: &str) -> (r: (RawRequest, String))
    ensures
        request_view(r.0) == spec_named_lookup_request(k, name@),
        r.1@ == unicode_upper(name@),
{
    let upper = to_unicode_upper(name);
    let encoded = encode_path_segment(upper.as_str());
    let prefix = match k {
        NamedLookup::Transaction => "/sap/bc/adt/vit/wb/object_type/TRAN/object_name/",
        NamedLookup::DataElement => "/sap/bc/adt/ddic/dataelements/",
    };
    let request = RawRequest {
        method: HttpMethod::Get,
        path: concat(prefix, encoded.as_str()),
        body: None,
        content_type: None,
        accept: Some(owned("application/xml")),
    };
    (request, upper)
}

/// The request that reads the test doubles a CDS view depends on.
pub open spec fn spec_cds_dependencies_request(ddls: Seq<char>) -> RequestView {
    (
        HttpMethod::Get,
        with_query("/sap/bc/adt/testcodegen/dependencies/doubledata"@, seq![("ddlsourceName"@, ddls)]),
        None,
        None,
        Some("application/vnd.sap.adt.codegen.data.v1+xml"@),
    )
}

/// The request that reads the test doubles a CDS view depends on.
pub fn cds_dependencies_request(ddls: &str) -> (r: RawRequest)
    ensures
        request_view(r) == spec_cds_dependencies_request(ddls@),
{
    let mut query: Vec<(String, String)> = Vec::new();
    query.push((owned("ddlsourceName"), owned(ddls)));
    assert(pairs_view(query@) =~= seq![("ddlsourceName"@, ddls@)]);
    let path = build_path_with_query("/sap/bc/adt/testcodegen/dependencies/doubledata", &query);
    RawRequest {
        method: HttpMethod::Get,
        path,
        body: None,
        content_type: None,
        accept: Some(owned("application/vnd.sap.adt.codegen.data.v1+xml")),
    }
}

/// A table preview as plain values: the request, the upper-cased table,
/// the row limit and the SQL filter.
pub open spec fn preview_rows(max_rows: Option<u32>) -> nat {
    match max_rows {
        Some(m) => if m < 1 {
            1
        } else {
            m as nat
        },
        None => 100,
    }
}

/// The trimmed SQL filter, when one is given and not blank.
pub open spec fn sql_filter(sql_query: Option<Seq<char>>) -> Option<Seq<char>> {
    match sql_query {
        Some(q) => if trim_seq(q).len() > 0 {
            Some(trim_seq(q))
        } else {
            None
        },
        None => None,
    }
}

/// The request that previews a table's rows.
pub open spec fn spec_table_contents_request(
    table_name: Seq<char>,
    max_rows: Option<u32>,
    sql_query: Option<Seq<char>>,
) -> RequestView {
    (
        HttpMethod::Post,
        with_query(
            "/sap/bc/adt/datapreview/ddic"@,
            seq![
                ("rowNumber"@, decimal(preview_rows(max_rows))),
                ("ddicEntityName"@, upper_seq(table_name)),
            ],
        ),
        sql_filter(sql_query),
        if sql_filter(sql_query) is Some {
            Some("text/plain"@)
        } else {
            None
        },
        Some("application/*"@),
    )
}

/// The request that previews a table's rows (the table must be given; 100
/// rows unless another positive limit is given), with the upper-cased
/// table name, the row limit and the filter sent.
pub fn table_contents_request(
    table_name: Option<String>,
    max_rows: Option<u32>,
    sql_query: Option<String>,
    tool_name: &str,
) -> (r: Result<(RawRequest, String, u32, Option<String>), NeuroMcpError>)
    ensures
        match table_name {
            None => r matches Err(NeuroMcpError::InvalidArguments { tool, message }) && tool@
                == tool_name@ && message@ == "tableName/table_name is required"@,
            Some(t) => r matches Ok((q, name, rows, filter)) && request_view(q)
                == spec_table_contents_request(t@, max_rows, opt_text(sql_query)) && name@ == upper_seq(
                t@,
            ) && rows == preview_rows(max_rows) && opt_text(filter) == sql_filter(opt_text(sql_query)),
        },
{
    let table_name = match table_name {
        Some(t) => t,
        None => {
            return Err(invalid_arguments(tool_name, "tableName/table_name is required"));
        },
    };
    let upper = to_upper(table_name.as_str());
    let rows: u32 = match max_rows {
        Some(m) => if m < 1 {
            1
        } else {
            m
        },
        None => 100,
    };
    let filter = match &sql_query {
        Some(q) => {
            let trimmed = trim(q.as_str());
            if trimmed.as_str().is_empty() {
                None
            } else {
                Some(trimmed)
            }
        },
        None => None,
    };
    let mut query: Vec<(String, String)> = Vec::new();
    query.push((owned("rowNumber"), decimal_string(rows as u64)));
    query.push((owned("ddicEntityName"), upper.clone()));
    assert(query@.len() == 2);
    assert(pairs_view(query@) =~= seq![
        ("rowNumber"@, decimal(preview_rows(max_rows))),
        ("ddicEntityName"@, upper_seq(table_name@)),
    ]);
    let path = build_path_with_query("/sap/bc/adt/datapreview/ddic", &query);
    let content_type = match &filter {
        Some(_) => Some(owned("text/plain")),
        None => None,
    };
    let request = RawRequest {
        method: HttpMethod::Post,
        path,
        body: filter.clone(),
        content_type,
        accept: Some(owned("application/*")),
    };
    Ok((request, upper, rows, filter))
}

/// The request that formats a source with the pretty printer.
pub open spec fn spec_pretty_print_request(source: Seq<char>) -> RequestView {
    (
        HttpMethod::Post,
        "/sap/bc/adt/abapsource/prettyprinter"@,
        Some(source),
        Some("text/plain"@),
        Some("text/plain"@),
    )
}

/// The request that formats a source with the pretty printer.
pub fn pretty_print_request(source: &str) -> (r: RawRequest)
    ensures
        request_view(r) == spec_pretty_print_request(source@),
{
    RawRequest {
        method: HttpMethod::Post,
        path: owned("/sap/bc/adt/abapsource/prettyprinter"),
        body: Some(owned(source)),
        content_type: Some(owned("text/plain")),
        accept: Some(owned("text/plain")),
    }
}

/// The body that sets the pretty printer's indentation and style.
pub open spec fn pretty_printer_settings_body(indentation: bool, style: Seq<char>) -> Seq<char> {
    "<?xml version=\"1.0\" encoding=\"UTF-8\"?>\n<prettyprintersettings:PrettyPrinterSettings\nxmlns:prettyprintersettings=\"http://www.sap.com/adt/prettyprintersettings\"\nprettyprintersettings:indentation=\""@
        + crate::mcp::requests::flag_text(indentation) + "\" prettyprintersettings:style=\""@ + style
        + "\"/>"@
}

/// The request that sets the pretty printer's settings.
pub open spec fn spec_pretty_printer_settings_request(indentation: bool, style: Seq<char>) -> RequestView {
    (
        HttpMethod::Put,
        "/sap/bc/adt/abapsource/prettyprinter/settings"@,
        Some(pretty_printer_settings_body(indentation, style)),
        Some("application/*"@),
        None,
    )
}

/// The request that sets the pretty printer's settings.
pub fn pretty_printer_settings_request(indentation: bool, style: &str) -> (r: RawRequest)
    ensures
        request_view(r) == spec_pretty_printer_settings_request(indentation, style@),
{
    let mut body = concat(
        "<?xml version=\"1.0\" encoding=\"UTF-8\"?>\n<prettyprintersettings:PrettyPrinterSettings\nxmlns:prettyprintersettings=\"http://www.sap.com/adt/prettyprintersettings\"\nprettyprintersettings:indentation=\"",
        if indentation {
            "true"
        } else {
            "false"
        },
    );
    append(&mut body, "\" prettyprintersettings:style=\"");
    append(&mut body, style);
    append(&mut body, "\"/>");
    RawRequest {
        method: HttpMethod::Put,
        path: owned("/sap/bc/adt/abapsource/prettyprinter/settings"),
        body: Some(body),
        content_type: Some(owned("application/*")),
        accept: None,
    }
}

/// `n`, or 1 when it is 0.
pub open spec fn at_least_one(n: u32) -> nat {
    if n < 1 {
        1
    } else {
        n as nat
    }
}

/// The position fragment of a navigation request: the line (at least 1)
/// with the start column (at least 1) and the end column (at least the
/// start column).
pub open spec fn definition_fragment(line: u32, start_col: u32, end_col: u32) -> Seq<char> {
    let l = at_least_one(line);
    let s = at_least_one(start_col);
    let e = if end_col < s {
        s
    } else {
        end_col as nat
    };
    "#start="@ + decimal(l) + ","@ + decimal(s) + ";end="@ + decimal(l) + ","@ + decimal(e)
}

/// The `context` query of a navigation request, when a main program is
/// given and not blank.
pub open spec fn definition_context(main_program: Option<Seq<char>>) -> Seq<char> {
    match main_program {
        Some(m) => if trim_seq(m).len() > 0 {
            "?context="@ + enc(m)
        } else {
            Seq::empty()
        },
        None => Seq::empty(),
    }
}

/// The request that finds the definition (or the implementation) of what
/// stands at a position of a source.
pub open spec fn spec_find_definition_request(
    source_url: Seq<char>,
    source: Seq<char>,
    line: u32,
    start_col: u32,
    end_col: u32,
    implementation: bool,
    main_program: Option<Seq<char>>,
) -> RequestView {
    (
        HttpMethod::Post,
        with_query(
            "/sap/bc/adt/navigation/target"@,
            seq![
                (
                    "uri"@,
                    source_url + definition_context(main_program) + definition_fragment(
                        line,
                        start_col,
                        end_col,
                    ),
                ),
                ("filter"@, if implementation { "implementation"@ } else { "definition"@ }),
            ],
        ),
        Some(source),
        Some("text/plain"@),
        Some("application/*"@),
    )
}

fn definition_fragment_text(line: u32, start_col: u32, end_col: u32) -> (r: String)
    ensures
        r@ == definition_fragment(line, start_col, end_col),
{
    let l: u32 = if line < 1 {
        1
    } else {
        line
    };
    let s: u32 = if start_col < 1 {
        1
    } else {
        start_col
    };
    let e: u32 = if end_col < s {
        s
    } else {
        end_col
    };
    let mut r = concat("#start=", decimal_string(l as u64).as_str());
    append(&mut r, ",");
    append(&mut r, decimal_string(s as u64).as_str());
    append(&mut r, ";end=");
    append(&mut r, decimal_string(l as u64).as_str());
    append(&mut r, ",");
    append(&mut r, decimal_string(e as u64).as_str());
    r
}

fn definition_context_text(main_program: &Option<String>) -> (r: String)
    ensures
        r@ == definition_context(opt_text(*main_program)),
{
    match main_program {
        Some(m) => {
            let cleaned = trim(m.as_str());
            if !cleaned.as_str().is_empty() {
                let encoded = encode_query_value(m.as_str());
                concat("?context=", encoded.as_str())
            } else {
                String::new()
            }
        },
        None => String::new(),
    }
}

/// The request that finds the definition (or implementation) at a
/// position.
pub fn find_definition_request(
    source_url: &str,
    source: &str,
    line: u32,
    start_col: u32,
    end_col: u32,
    implementation: bool,
    main_program: Option<String>,
) -> (r: RawRequest)
    ensures
        request_view(r) == spec_find_definition_request(
            source_url@,
            source@,
            line,
            start_col,
            end_col,
            implementation,
            opt_text(main_program),
        ),
{
    let context = definition_context_text(&main_program);
    let fragment = definition_fragment_text(line, start_col, end_col);
    let mut uri = concat(source_url, context.as_str());
    append(&mut uri, fragment.as_str());
    let filter = if implementation {
        "implementation"
    } else {
        "definition"
    };
    let ghost want_uri = uri@;
    let mut query: Vec<(String, String)> = Vec::new();
    query.push((owned("uri"), uri));
    query.push((owned("filter"), owned(filter)));
    assert(query@.len() == 2);
    assert(pairs_view(query@) =~= seq![
        ("uri"@, want_uri),
        ("filter"@, if implementation { "implementation"@ } else { "definition"@ }),
    ]);
    let path = build_path_with_query("/sap/bc/adt/navigation/target", &query);
    RawRequest {
        method: HttpMethod::Post,
        path,
        body: Some(owned(source)),
        content_type: Some(owned("text/plain")),
        accept: Some(owned("application/*")),
    }
}

/// The body of a where-used request.
pub open spec fn usage_body() -> Seq<char> {
    "<?xml version=\"1.0\" encoding=\"ASCII\"?>\n<usagereferences:usageReferenceRequest xmlns:usagereferences=\"http://www.sap.com/adt/ris/usageReferences\">\n  <usagereferences:affectedObjects/>\n</usagereferences:usageReferenceRequest>"@
}

/// The object (and, when both are positive, the position) whose uses are
/// listed.
pub open spec fn usage_target(object_url: Seq<char>, line: Option<u32>, column: Option<u32>) -> Seq<char> {
    match (line, column) {
        (Some(l), Some(c)) => if l > 0 && c > 0 {
            object_url + "#start="@ + decimal(l as nat) + ","@ + decimal(c as nat)
        } else {
            object_url
        },
        _ => object_url,
    }
}

/// The request that lists where an object is used.
pub open spec fn spec_find_references_request(object_url: Seq<char>, line: Option<u32>, column: Option<u32>) -> RequestView {
    (
        HttpMethod::Post,
        with_query(
            "/sap/bc/adt/repository/informationsystem/usageReferences"@,
            seq![("uri"@, usage_target(object_url, line, column))],
        ),
        Some(usage_body()),
        Some("application/*"@),
        Some("application/*"@),
    )
}

/// The request that lists where an object is used.
pub fn find_references_request(object_url: &str, line: Option<u32>, column: Option<u32>) -> (r: RawRequest)
    ensures
        request_view(r) == spec_find_references_request(object_url@, line, column),
{
    let mut uri = owned(object_url);
    match (line, column) {
        (Some(l), Some(c)) => {
            if l > 0 && c > 0 {
                append(&mut uri, "#start=");
                append(&mut uri, decimal_string(l as u64).as_str());
                append(&mut uri, ",");
                append(&mut uri, decimal_string(c as u64).as_str());
            }
        },
        _ => {},
    }
    assert(uri@ =~= usage_target(object_url@, line, column));
    let mut query: Vec<(String, String)> = Vec::new();
    query.push((owned("uri"), uri));
    assert(pairs_view(query@) =~= seq![("uri"@, usage_target(object_url@, line, column))]);
    let path = build_path_with_query("/sap/bc/adt/repository/informationsystem/usageReferences", &query);
    RawRequest {
        method: HttpMethod::Post,
        path,
        body: Some(owned(
            "<?xml version=\"1.0\" encoding=\"ASCII\"?>\n<usagereferences:usageReferenceRequest xmlns:usagereferences=\"http://www.sap.com/adt/ris/usageReferences\">\n  <usagereferences:affectedObjects/>\n</usagereferences:usageReferenceRequest>",
        )),
        content_type: Some(owned("application/*")),
        accept: Some(owned("application/*")),
    }
}

/// The request that asks for completions at a position of a source.
pub open spec fn spec_code_completion_request(source_url: Seq<char>, source: Seq<char>, line: u32, column: u32) -> RequestView {
    (
        HttpMethod::Post,
        with_query(
            "/sap/bc/adt/abapsource/codecompletion/proposal"@,
            seq![
                (
                    "uri"@,
                    source_url + "#start="@ + decimal(at_least_one(line)) + ","@ + decimal(
                        at_least_one(column),
                    ),
                ),
                ("signalCompleteness"@, "true"@),
            ],
        ),
        Some(source),
        Some("application/*"@),
        None,
    )
}

/// The request that asks for completions at a position (line and column
/// at least 1).
pub fn code_completion_request(source_url: &str, source: &str, line: u32, column: u32) -> (r: RawRequest)
    ensures
        request_view(r) == spec_code_completion_request(source_url@, source@, line, column),
{
    let l: u32 = if line < 1 {
        1
    } else {
        line
    };
    let c: u32 = if column < 1 {
        1
    } else {
        column
    };
    let mut uri = concat(source_url, "#start=");
    append(&mut uri, decimal_string(l as u64).as_str());
    append(&mut uri, ",");
    append(&mut uri, decimal_string(c as u64).as_str());
    let ghost want = source_url@ + "#start="@ + decimal(at_least_one(line)) + ","@ + decimal(
        at_least_one(column),
    );
    assert(uri@ =~= want);
    let mut query: Vec<(String, String)> = Vec::new();
    query.push((owned("uri"), uri));
    query.push((owned("signalCompleteness"), owned("true")));
    assert(query@.len() == 2);
    assert(pairs_view(query@) =~= seq![("uri"@, want), ("signalCompleteness"@, "true"@)]);
    let path = build_path_with_query("/sap/bc/adt/abapsource/codecompletion/proposal", &query);
    RawRequest {
        method: HttpMethod::Post,
        path,
        body: Some(owned(source)),
        content_type: Some(owned("application/*")),
        accept: None,
    }
}

/// A limit argument: its value, at least 1, or `default` when missing.
pub open spec fn limit_or(value: Option<u32>, default: nat) -> nat {
    match value {
        Some(m) => if m < 1 {
            1
        } else {
            m as nat
        },
        None => default,
    }
}

fn limit_value(value: Option<u32>, default: u32) -> (r: u32)
    ensures
        r == limit_or(value, default as nat),
{
    match value {
        Some(m) => if m < 1 {
            1
        } else {
            m
        },
        None => default,
    }
}

/// The request that explores the structure of an object by name.
pub open spec fn spec_object_structure_request(object_name: Seq<char>, max_results: nat) -> RequestView {
    (
        HttpMethod::Get,
        with_query(
            "/sap/bc/adt/cai/objectexplorer/objects"@,
            seq![("objectName"@, object_name), ("maxResults"@, decimal(max_results))],
        ),
        None,
        None,
        Some("application/xml"@),
    )
}

/// The request that explores the structure of an object (which must be
/// named; at most 100 results unless another positive limit is given),
/// with the limit used.
pub fn object_structure_request(object_name: Option<String>, max_results: Option<u32>, tool_name: &str) -> (r: Result<
    (RawRequest, u32),
    NeuroMcpError,
>)
    ensures
        match object_name {
            None => r matches Err(NeuroMcpError::InvalidArguments { tool, message }) && tool@
                == tool_name@ && message@ == "objectName/object_name is required"@,
            Some(n) => r matches Ok((q, limit)) && limit == limit_or(max_results, 100)
                && request_view(q) == spec_object_structure_request(n@, limit as nat),
        },
{
    let object_name = match object_name {
        Some(n) => n,
        None => {
            return Err(invalid_arguments(tool_name, "objectName/object_name is required"));
        },
    };
    let limit = limit_value(max_results, 100);
    let mut query: Vec<(String, String)> = Vec::new();
    query.push((owned("objectName"), object_name));
    query.push((owned("maxResults"), decimal_string(limit as u64)));
    assert(query@.len() == 2);
    assert(pairs_view(query@) =~= seq![("objectName"@, query@[0].1@), ("maxResults"@, decimal(limit as nat))]);
    let path = build_path_with_query("/sap/bc/adt/cai/objectexplorer/objects", &query);
    Ok((RawRequest { method: HttpMethod::Get, path, body: None, content_type: None, accept: Some(owned("application/xml")) }, limit))
}

/// The request that reads the components of a class.
pub open spec fn spec_class_components_request(class_url: Seq<char>) -> RequestView {
    (
        HttpMethod::Get,
        with_query(
            class_url + "/objectstructure"@,
            seq![("version"@, "active"@), ("withShortDescriptions"@, "true"@)],
        ),
        None,
        None,
        Some("application/*"@),
    )
}

/// The request that reads the components of a class.
pub fn class_components_request(class_url: &str) -> (r: RawRequest)
    ensures
        request_view(r) == spec_class_components_request(class_url@),
{
    let base = concat(class_url, "/objectstructure");
    let mut query: Vec<(String, String)> = Vec::new();
    query.push((owned("version"), owned("active")));
    query.push((owned("withShortDescriptions"), owned("true")));
    assert(query@.len() == 2);
    assert(pairs_view(query@) =~= seq![("version"@, "active"@), ("withShortDescriptions"@, "true"@)]);
    let path = build_path_with_query(base.as_str(), &query);
    RawRequest { method: HttpMethod::Get, path, body: None, content_type: None, accept: Some(owned("application/*")) }
}

/// The body of a call graph request.
pub open spec fn call_graph_body(object_uri: Seq<char>) -> Seq<char> {
    "<?xml version=\"1.0\" encoding=\"UTF-8\"?>\n<cai:callGraphRequest xmlns:cai=\"http://www.sap.com/adt/cai\">\n  <cai:objectUri>"@
        + object_uri + "</cai:objectUri>\n</cai:callGraphRequest>"@
}

/// The request that reads the call graph of an object.
pub open spec fn spec_call_graph_request(object_uri: Seq<char>, direction: Seq<char>, max_depth: nat, max_results: nat) -> RequestView {
    (
        HttpMethod::Post,
        with_query(
            "/sap/bc/adt/cai/callgraph"@,
            seq![
                ("direction"@, direction),
                ("maxDepth"@, decimal(max_depth)),
                ("maxResults"@, decimal(max_results)),
            ],
        ),
        Some(call_graph_body(object_uri)),
        Some("application/xml"@),
        Some("application/xml"@),
    )
}

/// The request that reads the call graph of an object.
pub fn call_graph_request(object_uri: &str, direction: &str, max_depth: u32, max_results: u32) -> (r: RawRequest)
    ensures
        request_view(r) == spec_call_graph_request(object_uri@, direction@, max_depth as nat, max_results as nat),
{
    let mut query: Vec<(String, String)> = Vec::new();
    query.push((owned("direction"), owned(direction)));
    query.push((owned("maxDepth"), decimal_string(max_depth as u64)));
    query.push((owned("maxResults"), decimal_string(max_results as u64)));
    assert(query@.len() == 3);
    assert(pairs_view(query@) =~= seq![
        ("direction"@, direction@),
        ("maxDepth"@, decimal(max_depth as nat)),
        ("maxResults"@, decimal(max_results as nat)),
    ]);
    let path = build_path_with_query("/sap/bc/adt/cai/callgraph", &query);
    let mut body = concat(
        "<?xml version=\"1.0\" encoding=\"UTF-8\"?>\n<cai:callGraphRequest xmlns:cai=\"http://www.sap.com/adt/cai\">\n  <cai:objectUri>",
        object_uri,
    );
    append(&mut body, "</cai:objectUri>\n</cai:callGraphRequest>");
    RawRequest {
        method: HttpMethod::Post,
        path,
        body: Some(body),
        content_type: Some(owned("application/xml")),
        accept: Some(owned("application/xml")),
    }
}

/// The call graph tools.
#[derive(Clone, Copy, Debug, PartialEq, Eq, Structural)]
pub enum CallGraphTool {
    /// Either direction (callers unless asked), depth 3, 100 results.
    General,
    /// Callers, depth 5, 500 results.
    Callers,
    /// Callees, depth 5, 500 results.
    Callees,
    /// Either direction (callees unless asked), depth 5, 1000 results.
    Analysis,
}

/// The direction, depth and result limit of a call graph query.
pub open spec fn call_graph_query(
    t: CallGraphTool,
    direction: Option<Seq<char>>,
    max_depth: Option<u32>,
    max_results: Option<u32>,
) -> (Seq<char>, nat, nat) {
    match t {
        CallGraphTool::General => (
            match direction {
                Some(d) => d,
                None => "callers"@,
            },
            limit_or(max_depth, 3),
            limit_or(max_results, 100),
        ),
        CallGraphTool::Callers => ("callers"@, limit_or(max_depth, 5), 500),
        CallGraphTool::Callees => ("callees"@, limit_or(max_depth, 5), 500),
        CallGraphTool::Analysis => (
            match direction {
                Some(d) => d,
                None => "callees"@,
            },
            limit_or(max_depth, 5),
            1000,
        ),
    }
}

/// The call graph query of a tool call (the object must be given): the
/// request, the direction, the depth and the result limit.
pub fn call_graph_plan(
    t: CallGraphTool,
    object_uri: Option<String>,
    direction: Option<String>,
    max_depth: Option<u32>,
    max_results: Option<u32>,
    tool_name: &str,
) -> (r: Result<(RawRequest, String, u32, u32), NeuroMcpError>)
    ensures
        match object_uri {
            None => r matches Err(NeuroMcpError::InvalidArguments { tool, message }) && tool@
                == tool_name@ && message@ == "objectUri/object_uri is required"@,
            Some(u) => r matches Ok((q, d, depth, results)) && (d@, depth as nat, results as nat)
                == call_graph_query(t, opt_text(direction), max_depth, max_results) && request_view(q)
                == spec_call_graph_request(u@, d@, depth as nat, results as nat),
        },
{
    let object_uri = match object_uri {
        Some(u) => u,
        None => {
            return Err(invalid_arguments(tool_name, "objectUri/object_uri is required"));
        },
    };
    let (d, depth, results) = match t {
        CallGraphTool::General => (
            match direction {
                Some(d) => d,
                None => owned("callers"),
            },
            limit_value(max_depth, 3),
            limit_value(max_results, 100),
        ),
        CallGraphTool::Callers => (owned("callers"), limit_value(max_depth, 5), 500u32),
        CallGraphTool::Callees => (owned("callees"), limit_value(max_depth, 5), 500u32),
        CallGraphTool::Analysis => (
            match direction {
                Some(d) => d,
                None => owned("callees"),
            },
            limit_value(max_depth, 5),
            1000u32,
        ),
    };
    let request = call_graph_request(object_uri.as_str(), d.as_str(), depth, results);
    Ok((request, d, depth, results))
}

/// The request that reads an object of a source family as XML, by name.
pub open spec fn spec_raw_by_pattern_request(p: SourcePattern, name: Seq<char>) -> RequestView {
    (
        HttpMethod::Get,
        crate::text::replace_seq(spec_path_pattern(p), "{name}"@, enc(name)),
        None,
        None,
        Some("application/xml"@),
    )
}

/// The request that reads an object of a source family as XML, by name.
pub fn raw_by_pattern_request(p: SourcePattern, name: &str) -> (r: RawRequest)
    ensures
        request_view(r) == spec_raw_by_pattern_request(p, name@),
{
    RawRequest {
        method: HttpMethod::Get,
        path: build_source_uri(p.path_pattern(), name),
        body: None,
        content_type: None,
        accept: Some(owned("application/xml")),
    }
}

} // verus!
