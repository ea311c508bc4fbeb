//! The ADT requests behind the runtime analysis tools: dumps, ABAP traces
//! and SQL traces.
use vstd::prelude::*;

use crate::errors::NeuroMcpError;
use crate::mcp::create::{invalid_arguments, with_query};
use crate::mcp::encode::encode_path_segment;
use crate::mcp::lookups::limit_or;
use crate::mcp::paths::{build_path_with_query, enc, normalize_dump_id, normalize_trace_id, spec_last_segment};
use crate::mcp::requests::{pairs_view, request_view, HttpMethod, RawRequest, RequestView};
use crate::text::{append, concat, decimal, decimal_string, owned, trim, trim_seq};
use crate::xml::opt_text;

verus! {

/// The clause of a filter argument, when it is given and not blank: the
/// field, the operator, the trimmed value quoted with a suffix.
pub open spec fn clause(field: Seq<char>, value: Option<Seq<char>>, suffix: Seq<char>) -> Seq<Seq<char>> {
    match value {
        Some(v) => if trim_seq(v).len() > 0 {
            seq![field + " '"@ + trim_seq(v) + suffix + "'"@]
        } else {
            Seq::empty()
        },
        None => Seq::empty(),
    }
}

/// The clauses of a dump listing, in order.
pub open spec fn dump_clauses(
    user: Option<Seq<char>>,
    exception_type: Option<Seq<char>>,
    program: Option<Seq<char>>,
    package: Option<Seq<char>>,
    date_from: Option<Seq<char>>,
    date_to: Option<Seq<char>>,
) -> Seq<Seq<char>> {
    clause("user eq"@, user, Seq::empty()) + clause("exceptionType eq"@, exception_type, Seq::empty())
        + clause("program eq"@, program, Seq::empty()) + clause("package eq"@, package, Seq::empty())
        + clause("datetime ge"@, date_from, "000000"@) + clause("datetime le"@, date_to, "235959"@)
}

/// Clauses joined with ` and `.
pub open spec fn join_and(clauses: Seq<Seq<char>>) -> Seq<char>
    decreases clauses.len(),
{
    if clauses.len() == 0 {
        Seq::empty()
    } else if clauses.len() == 1 {
        clauses[0]
    } else {
        join_and(clauses.drop_last()) + " and "@ + clauses.last()
    }
}

fn push_clause(clauses: &mut Vec<String>, field: &str, value: Option<String>, suffix: &str)
    ensures
        final(clauses)@.map_values(|c: String| c@) == old(clauses)@.map_values(|c: String| c@) + clause(
            field@,
            opt_text(value),
            suffix@,
        ),
{
    let ghost before = clauses@.map_values(|c: String| c@);
    match value {
        Some(v) => {
            let cleaned = trim(v.as_str());
            if !cleaned.as_str().is_empty() {
                let mut c = concat(field, " '");
                append(&mut c, cleaned.as_str());
                append(&mut c, suffix);
                append(&mut c, "'");
                clauses.push(c);
            }
        },
        None => {},
    }
    assert(clauses@.map_values(|c: String| c@) =~= before + clause(field@, opt_text(value), suffix@));
}

fn join_clauses(clauses: &Vec<String>) -> (r: String)
    ensures
        r@ == join_and(clauses@.map_values(|c: String| c@)),
{
    let ghost all = clauses@.map_values(|c: String| c@);
    let mut out = String::new();
    let mut i: usize = 0;
    while i < clauses.len()
        invariant
            i <= clauses@.len(),
            all == clauses@.map_values(|c: String| c@),
            out@ == join_and(all.take(i as int)),
        decreases clauses@.len() - i,
    {
        assert(all.take(i + 1).drop_last() =~= all.take(i as int));
        if i > 0 {
            append(&mut out, " and ");
        } else {
            assert(all.take(0) =~= Seq::<Seq<char>>::empty());
        }
        append(&mut out, clauses[i].as_str());
        i += 1;
    }
    assert(all.take(clauses@.len() as int) =~= all);
    out
}

/// The query of a dump listing: the filter, when there is a clause, and
/// the limit (100 unless another positive one is given).
pub open spec fn dump_query(clauses: Seq<Seq<char>>, max_results: Option<u32>) -> Seq<(Seq<char>, Seq<char>)> {
    (if clauses.len() > 0 {
        seq![("$filter"@, join_and(clauses))]
    } else {
        Seq::empty()
    }) + seq![("$top"@, decimal(limit_or(max_results, 100)))]
}

/// The request that lists runtime error dumps.
pub open spec fn spec_list_dumps_request(clauses: Seq<Seq<char>>, max_results: Option<u32>) -> RequestView {
    (
        HttpMethod::Get,
        with_query("/sap/bc/adt/runtime/dumps"@, dump_query(clauses, max_results)),
        None,
        None,
        Some("application/atom+xml;type=feed"@),
    )
}

/// The request that lists runtime error dumps, filtered by the arguments
/// that are given and not blank.
pub fn list_dumps_request(
    user: Option<String>,
    exception_type: Option<String>,
    program: Option<String>,
    package: Option<String>,
    date_from: Option<String>,
    date_to: Option<String>,
    max_results: Option<u32>,
) -> (r: RawRequest)
    ensures
        request_view(r) == spec_list_dumps_request(
            dump_clauses(
                opt_text(user),
                opt_text(exception_type),
                opt_text(program),
                opt_text(package),
                opt_text(date_from),
                opt_text(date_to),
            ),
            max_results,
        ),
{
    let ghost want = dump_clauses(
        opt_text(user),
        opt_text(exception_type),
        opt_text(program),
        opt_text(package),
        opt_text(date_from),
        opt_text(date_to),
    );
    let mut clauses: Vec<String> = Vec::new();
    push_clause(&mut clauses, "user eq", user, "");
    push_clause(&mut clauses, "exceptionType eq", exception_type, "");
    push_clause(&mut clauses, "program eq", program, "");
    push_clause(&mut clauses, "package eq", package, "");
    push_clause(&mut clauses, "datetime ge", date_from, "000000");
    push_clause(&mut clauses, "datetime le", date_to, "235959");
    proof {
        reveal_strlit("");
    }
    assert(clauses@.map_values(|c: String| c@) =~= want);
    let mut query: Vec<(String, String)> = Vec::new();
    if clauses.len() > 0 {
        query.push((owned("$filter"), join_clauses(&clauses)));
    }
    let limit: u32 = match max_results {
        Some(m) => if m < 1 {
            1
        } else {
            m
        },
        None => 100,
    };
    query.push((owned("$top"), decimal_string(limit as u64)));
    assert(pairs_view(query@) =~= dump_query(want, max_results));
    let path = build_path_with_query("/sap/bc/adt/runtime/dumps", &query);
    RawRequest {
        method: HttpMethod::Get,
        path,
        body: None,
        content_type: None,
        accept: Some(owned("application/atom+xml;type=feed")),
    }
}

/// The request that reads one dump (by the last segment of its id or URL).
pub open spec fn spec_dump_request(dump_id: Seq<char>) -> RequestView {
    (
        HttpMethod::Get,
        "/sap/bc/adt/runtime/dump/"@ + enc(spec_last_segment(dump_id)),
        None,
        None,
        Some("text/html"@),
    )
}

/// The request that reads one dump (its id must be given), with the id as
/// read.
pub fn dump_request(dump_id: Option<String>, tool_name: &str) -> (r: Result<(RawRequest, String), NeuroMcpError>)
    ensures
        match dump_id {
            None => r matches Err(NeuroMcpError::InvalidArguments { tool, message }) && tool@
                == tool_name@ && message@ == "dump_id is required"@,
            Some(d) => r matches Ok((q, id)) && request_view(q) == spec_dump_request(d@) && id@
                == spec_last_segment(d@),
        },
{
    let dump_id = match dump_id {
        Some(d) => d,
        None => {
            return Err(invalid_arguments(tool_name, "dump_id is required"));
        },
    };
    let id = normalize_dump_id(dump_id.as_str());
    let path = concat("/sap/bc/adt/runtime/dump/", encode_path_segment(id.as_str()).as_str());
    Ok((RawRequest { method: HttpMethod::Get, path, body: None, content_type: None, accept: Some(owned("text/html")) }, id))
}

/// A filter pair, when the argument is given and not blank: the key and
/// the trimmed value.
pub open spec fn trimmed_pair(key: Seq<char>, value: Option<Seq<char>>) -> Seq<(Seq<char>, Seq<char>)> {
    match value {
        Some(v) => if trim_seq(v).len() > 0 {
            seq![(key, trim_seq(v))]
        } else {
            Seq::empty()
        },
        None => Seq::empty(),
    }
}

fn push_trimmed(query: &mut Vec<(String, String)>, key: &str, value: Option<String>)
    ensures
        pairs_view(final(query)@) == pairs_view(old(query)@) + trimmed_pair(key@, opt_text(value)),
{
    let ghost before = pairs_view(query@);
    match value {
        Some(v) => {
            let cleaned = trim(v.as_str());
            if !cleaned.as_str().is_empty() {
                query.push((owned(key), cleaned));
            }
        },
        None => {},
    }
    assert(pairs_view(query@) =~= before + trimmed_pair(key@, opt_text(value)));
}

/// The request that lists ABAP traces.
pub open spec fn spec_list_traces_request(
    user: Option<Seq<char>>,
    process_type: Option<Seq<char>>,
    object_type: Option<Seq<char>>,
    max_results: Option<u32>,
) -> RequestView {
    (
        HttpMethod::Get,
        with_query(
            "/sap/bc/adt/runtime/traces/abaptraces"@,
            trimmed_pair("user"@, user) + trimmed_pair("processType"@, process_type) + trimmed_pair(
                "objectType"@,
                object_type,
            ) + seq![("$top"@, decimal(limit_or(max_results, 100)))],
        ),
        None,
        None,
        Some("application/atom+xml"@),
    )
}

/// The request that lists ABAP traces, filtered by the arguments that are
/// given and not blank.
pub fn list_traces_request(
    user: Option<String>,
    process_type: Option<String>,
    object_type: Option<String>,
    max_results: Option<u32>,
) -> (r: RawRequest)
    ensures
        request_view(r) == spec_list_traces_request(opt_text(user), opt_text(process_type), opt_text(object_type), max_results),
{
    let ghost u = opt_text(user);
    let ghost p = opt_text(process_type);
    let ghost o = opt_text(object_type);
    let mut query: Vec<(String, String)> = Vec::new();
    push_trimmed(&mut query, "user", user);
    push_trimmed(&mut query, "processType", process_type);
    push_trimmed(&mut query, "objectType", object_type);
    let ghost filters = pairs_view(query@);
    let limit: u32 = match max_results {
        Some(m) => if m < 1 {
            1
        } else {
            m
        },
        None => 100,
    };
    query.push((owned("$top"), decimal_string(limit as u64)));
    assert(filters =~= trimmed_pair("user"@, u) + trimmed_pair("processType"@, p) + trimmed_pair("objectType"@, o));
    assert(pairs_view(query@) =~= filters + seq![("$top"@, decimal(limit_or(max_results, 100)))]);
    let path = build_path_with_query("/sap/bc/adt/runtime/traces/abaptraces", &query);
    RawRequest { method: HttpMethod::Get, path, body: None, content_type: None, accept: Some(owned("application/atom+xml")) }
}

/// The request that analyses one trace with a tool (the hit list unless
/// another is named).
pub open spec fn spec_trace_request(trace_id: Seq<char>, tool_type: Seq<char>) -> RequestView {
    (
        HttpMethod::Get,
        "/sap/bc/adt/runtime/traces/abaptraces/"@ + enc(spec_last_segment(trace_id)) + "/"@ + enc(tool_type),
        None,
        None,
        Some("application/xml"@),
    )
}

/// The request that analyses one trace (its id must be given), with the
/// id and tool used.
pub fn trace_request(trace_id: Option<String>, tool_type: Option<String>, tool_name: &str) -> (r: Result<
    (RawRequest, String, String),
    NeuroMcpError,
>)
    ensures
        match trace_id {
            None => r matches Err(NeuroMcpError::InvalidArguments { tool, message }) && tool@
                == tool_name@ && message@ == "trace_id is required"@,
            Some(t) => r matches Ok((q, id, kind)) && kind@ == (match tool_type {
                Some(k) => k@,
                None => "hitlist"@,
            }) && id@ == spec_last_segment(t@) && request_view(q) == spec_trace_request(t@, kind@),
        },
{
    let trace_id = match trace_id {
        Some(t) => t,
        None => {
            return Err(invalid_arguments(tool_name, "trace_id is required"));
        },
    };
    let kind = match tool_type {
        Some(k) => k,
        None => owned("hitlist"),
    };
    let id = normalize_trace_id(trace_id.as_str());
    let mut path = concat("/sap/bc/adt/runtime/traces/abaptraces/", encode_path_segment(id.as_str()).as_str());
    append(&mut path, "/");
    append(&mut path, encode_path_segment(kind.as_str()).as_str());
    Ok((RawRequest { method: HttpMethod::Get, path, body: None, content_type: None, accept: Some(owned("application/xml")) }, id, kind))
}

/// The request that reads the state of the SQL trace.
pub fn sql_trace_state_request() -> (r: RawRequest)
    ensures
        request_view(r) == (HttpMethod::Get, "/sap/bc/adt/st05/trace/state"@, None::<Seq<char>>, None::<Seq<char>>, Some("application/xml"@)),
{
    RawRequest {
        method: HttpMethod::Get,
        path: owned("/sap/bc/adt/st05/trace/state"),
        body: None,
        content_type: None,
        accept: Some(owned("application/xml")),
    }
}

/// The request that lists SQL traces.
pub open spec fn spec_list_sql_traces_request(user: Option<Seq<char>>, max_results: Option<u32>) -> RequestView {
    (
        HttpMethod::Get,
        with_query(
            "/sap/bc/adt/st05/trace/directory"@,
            trimmed_pair("user"@, user) + seq![("$top"@, decimal(limit_or(max_results, 100)))],
        ),
        None,
        None,
        Some("application/atom+xml"@),
    )
}

/// The request that lists SQL traces, for a user when one is given and
/// not blank.
pub fn list_sql_traces_request(user: Option<String>, max_results: Option<u32>) -> (r: RawRequest)
    ensures
        request_view(r) == spec_list_sql_traces_request(opt_text(user), max_results),
{
    let ghost u = opt_text(user);
    let mut query: Vec<(String, String)> = Vec::new();
    push_trimmed(&mut query, "user", user);
    let ghost filters = pairs_view(query@);
    assert(filters =~= trimmed_pair("user"@, u));
    let limit: u32 = match max_results {
        Some(m) => if m < 1 {
            1
        } else {
            m
        },
        None => 100,
    };
    query.push((owned("$top"), decimal_string(limit as u64)));
    assert(pairs_view(query@) =~= filters + seq![("$top"@, decimal(limit_or(max_results, 100)))]);
    let path = build_path_with_query("/sap/bc/adt/st05/trace/directory", &query);
    RawRequest { method: HttpMethod::Get, path, body: None, content_type: None, accept: Some(owned("application/atom+xml")) }
}

} // verus!
