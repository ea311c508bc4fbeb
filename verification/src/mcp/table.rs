//! Creating a database table: announce it, then write its DDL under a
//! lock and activate it.
use vstd::prelude::*;

use crate::errors::NeuroMcpError;
use crate::json::JsonValue;
use crate::mcp::abapfile::{build_table_ddl, spec_table_ddl};
use crate::mcp::create::{invalid_arguments, with_query};
use crate::mcp::flow::{lock_handle_of, take_lock_handle, FlowAction, FlowEvent};
use crate::mcp::jsonx::{decoded_view, parse_table_fields, spec_parse_table_fields};
use crate::mcp::paths::{build_path_with_query, canon, enc};
use crate::mcp::xmltext::{escape_xml, spec_escape_xml};
use crate::text::{append, concat, lower_seq, owned, to_lower, to_upper, trim, trim_seq};
use crate::xml::opt_text;

verus! {

/// The arguments of a new table, each possibly missing; `fields` as the
/// call gives it.
#[derive(Clone, Debug, Default)]
pub struct CreateTableArgs {
    pub name: Option<String>,
    pub description: Option<String>,
    pub package: Option<String>,
    pub delivery_class: Option<String>,
    pub fields: Option<JsonValue>,
    pub transport: Option<String>,
}

/// Where the creation stands.
#[derive(Clone, Copy, Debug, PartialEq, Eq, Structural)]
pub enum TableStage {
    AwaitCreate,
    AwaitLock,
    AwaitWrite,
    AwaitUnlock,
    AwaitActivation,
}

/// A table creation in progress.
#[derive(Debug)]
pub struct CreateTableFlow {
    pub tool: String,
    pub table_name: String,
    pub package: String,
    pub field_count: usize,
    pub ddl: String,
    pub transport: Option<String>,
    pub table_url: String,
    pub lock_handle: String,
    pub stage: TableStage,
}

/// What a finished creation reports.
#[derive(Debug)]
pub struct TableOutcome {
    pub table: String,
    pub package: String,
    pub field_count: usize,
    pub activation: JsonValue,
}

/// The next step of the creation, or its end.
#[derive(Debug)]
pub enum TableStep {
    Next(CreateTableFlow, FlowAction),
    Finish(Result<TableOutcome, NeuroMcpError>),
}

/// The body that announces a new table in a package.
pub open spec fn spec_table_body(table_name: Seq<char>, description: Seq<char>, package: Seq<char>) -> Seq<char> {
    "<?xml version=\"1.0\" encoding=\"UTF-8\"?>\n<blue:blueSource xmlns:blue=\"http://www.sap.com/wbobj/blue\"\n                 xmlns:adtcore=\"http://www.sap.com/adt/core\"\n                 adtcore:name=\""@
        + spec_escape_xml(table_name)
        + "\"\n                 adtcore:type=\"TABL/DT\"\n                 adtcore:description=\""@
        + spec_escape_xml(description) + "\">\n  <adtcore:packageRef adtcore:name=\""@
        + spec_escape_xml(canon(package)) + "\"/>\n</blue:blueSource>"@
}

/// The body that announces a new table.
fn table_body(table_name: &str, description: &str, package: &str) -> (r: String)
    ensures
        r@ == spec_table_body(table_name@, description@, package@),
{
    let mut r = owned(
        "<?xml version=\"1.0\" encoding=\"UTF-8\"?>\n<blue:blueSource xmlns:blue=\"http://www.sap.com/wbobj/blue\"\n                 xmlns:adtcore=\"http://www.sap.com/adt/core\"\n                 adtcore:name=\"",
    );
    append(&mut r, escape_xml(table_name).as_str());
    append(&mut r, "\"\n                 adtcore:type=\"TABL/DT\"\n                 adtcore:description=\"");
    append(&mut r, escape_xml(description).as_str());
    append(&mut r, "\">\n  <adtcore:packageRef adtcore:name=\"");
    append(&mut r, escape_xml(to_upper(trim(package).as_str()).as_str()).as_str());
    append(&mut r, "\"/>\n</blue:blueSource>");
    assert(r@ =~= spec_table_body(table_name@, description@, package@));
    r
}

/// `r` refuses the call for `tool` with `message`.
pub open spec fn table_refuses(r: TableStep, tool: Seq<char>, message: Seq<char>) -> bool {
    r matches TableStep::Finish(Err(NeuroMcpError::InvalidArguments { tool: t, message: m })) && t@
        == tool && m@ == message
}

/// How the creation starts: name and description must be given, and at
/// least one field (read from the field argument, `decoded` being the JSON
/// decoding of it when it is a JSON text); the table (upper-cased name) is
/// announced in its package (`$TMP` by default), under the transport
/// request when not blank; its DDL uses delivery class `A` by default.
pub open spec fn table_start_ok(
    args: CreateTableArgs,
    decoded: Result<JsonValue, Seq<char>>,
    tool: Seq<char>,
    r: TableStep,
) -> bool {
    match (args.name, args.description) {
        (None, _) => table_refuses(r, tool, "name is required"@),
        (Some(_), None) => table_refuses(r, tool, "description is required"@),
        (Some(n), Some(d)) => match spec_parse_table_fields(args.fields, decoded) {
            Err(m) => table_refuses(r, tool, m),
            Ok(fields) => if fields.len() == 0 {
                table_refuses(r, tool, "at least one field is required"@)
            } else {
                let table_name = canon(n@);
                let package = match args.package {
                    Some(p) => p@,
                    None => "$TMP"@,
                };
                let delivery_class = match args.delivery_class {
                    Some(c) => c@,
                    None => "A"@,
                };
                let query = match args.transport {
                    Some(t) if trim_seq(t@).len() > 0 => seq![("corrNr"@, t@)],
                    _ => Seq::empty(),
                };
                r matches TableStep::Next(g, FlowAction::PostText { uri, body, content_type, accept })
                    && g.tool@ == tool && g.table_name@ == table_name && g.package@ == package
                    && g.field_count == fields.len() && g.ddl@ == spec_table_ddl(
                    table_name,
                    d@,
                    delivery_class,
                    fields,
                ) && opt_text(g.transport) == opt_text(args.transport) && g.stage
                    == TableStage::AwaitCreate && uri@ == with_query("/sap/bc/adt/ddic/tables"@, query)
                    && opt_text(body) == Some(spec_table_body(table_name, d@, package)) && opt_text(
                    content_type,
                ) == Some("application/vnd.sap.adt.tables.v2+xml"@) && opt_text(accept) == Some(
                    "application/vnd.sap.adt.tables.v2+xml"@,
                )
            },
        },
    }
}

/// What the creation does with `event` at its stage; a failed step ends
/// it with that failure.
pub open spec fn table_step_ok(f: CreateTableFlow, event: FlowEvent, r: TableStep) -> bool {
    match (f.stage, event) {
        (_, FlowEvent::Failed(e)) => r matches TableStep::Finish(Err(x)) && x == e,
        (TableStage::AwaitCreate, FlowEvent::Text(_)) => r matches TableStep::Next(
            g,
            FlowAction::Lock { object_url },
        ) && g.tool == f.tool && g.table_name == f.table_name && g.package == f.package
            && g.field_count == f.field_count && g.ddl == f.ddl && g.transport == f.transport
            && g.stage == TableStage::AwaitLock && g.table_url@ == "/sap/bc/adt/ddic/tables/"@ + enc(
            lower_seq(f.table_name@),
        ) && object_url@ == g.table_url@,
        (TableStage::AwaitLock, FlowEvent::Value(lock)) => match lock_handle_of(lock) {
            None => table_refuses(r, f.tool@, "LockObject did not return lockHandle"@),
            Some(h) => r matches TableStep::Next(
                g,
                FlowAction::WriteSource { uri, source, lock_handle, transport },
            ) && g.tool == f.tool && g.table_name == f.table_name && g.package == f.package
                && g.field_count == f.field_count && g.table_url == f.table_url && g.lock_handle@ == h
                && g.stage == TableStage::AwaitWrite && uri@ == f.table_url@ + "/source/main"@
                && source@ == f.ddl@ && lock_handle@ == h && opt_text(transport) == opt_text(
                f.transport,
            ),
        },
        (TableStage::AwaitWrite, FlowEvent::Text(_)) => r matches TableStep::Next(
            g,
            FlowAction::Unlock { object_url, lock_handle },
        ) && g.tool == f.tool && g.table_name == f.table_name && g.package == f.package
            && g.field_count == f.field_count && g.table_url == f.table_url && g.stage
            == TableStage::AwaitUnlock && object_url@ == f.table_url@ && lock_handle@ == f.lock_handle@,
        (TableStage::AwaitUnlock, FlowEvent::Value(_)) => r matches TableStep::Next(
            g,
            FlowAction::Activate { object_url, object_name },
        ) && g.tool == f.tool && g.table_name == f.table_name && g.package == f.package
            && g.field_count == f.field_count && g.table_url == f.table_url && g.stage
            == TableStage::AwaitActivation && object_url@ == f.table_url@ && object_name@
            == f.table_name@,
        (TableStage::AwaitActivation, FlowEvent::Value(v)) => r matches TableStep::Finish(Ok(o))
            && o.table == f.table_name && o.package == f.package && o.field_count == f.field_count
            && o.activation == v,
        _ => true,
    }
}

/// The stages that wait on a text: the announcement and the write.
pub open spec fn table_awaits_text(stage: TableStage) -> bool {
    stage == TableStage::AwaitCreate || stage == TableStage::AwaitWrite
}

impl CreateTableFlow {
    /// Starts the creation; `decoded` is the JSON decoding of the field
    /// argument when `fields_json_text` names a text to decode (else it is
    /// not read).
    pub fn start(args: CreateTableArgs, decoded: Result<JsonValue, String>, tool_name: &str) -> (r: TableStep)
        ensures
            table_start_ok(args, decoded_view(decoded), tool_name@, r),
    {
        let name = match args.name {
            Some(n) => n,
            None => {
                return TableStep::Finish(Err(invalid_arguments(tool_name, "name is required")));
            },
        };
        let description = match args.description {
            Some(d) => d,
            None => {
                return TableStep::Finish(Err(invalid_arguments(tool_name, "description is required")));
            },
        };
        let package = match args.package {
            Some(p) => p,
            None => owned("$TMP"),
        };
        let delivery_class = match args.delivery_class {
            Some(c) => c,
            None => owned("A"),
        };
        let table_name = to_upper(trim(name.as_str()).as_str());
        let fields = match parse_table_fields(args.fields, decoded, tool_name) {
            Ok(f) => f,
            Err(e) => {
                return TableStep::Finish(Err(e));
            },
        };
        if fields.len() == 0 {
            return TableStep::Finish(Err(invalid_arguments(tool_name, "at least one field is required")));
        }
        let mut query: Vec<(String, String)> = Vec::new();
        match &args.transport {
            Some(t) => {
                if !trim(t.as_str()).as_str().is_empty() {
                    query.push((owned("corrNr"), t.clone()));
                }
            },
            None => {},
        }
        let ghost q = query@.map_values(|p: (String, String)| (p.0@, p.1@));
        assert(q =~= match args.transport {
            Some(t) if trim_seq(t@).len() > 0 => seq![("corrNr"@, t@)],
            _ => Seq::<(Seq<char>, Seq<char>)>::empty(),
        });
        let uri = build_path_with_query("/sap/bc/adt/ddic/tables", &query);
        let body = table_body(table_name.as_str(), description.as_str(), package.as_str());
        let ddl = build_table_ddl(table_name.as_str(), description.as_str(), delivery_class.as_str(), fields.as_slice());
        let flow = CreateTableFlow {
            tool: owned(tool_name),
            table_name,
            package,
            field_count: fields.len(),
            ddl,
            transport: args.transport,
            table_url: String::new(),
            lock_handle: String::new(),
            stage: TableStage::AwaitCreate,
        };
        TableStep::Next(
            flow,
            FlowAction::PostText {
                uri,
                body: Some(body),
                content_type: Some(owned("application/vnd.sap.adt.tables.v2+xml")),
                accept: Some(owned("application/vnd.sap.adt.tables.v2+xml")),
            },
        )
    }

    /// Takes the outcome of the awaited step and says what comes next.
    pub fn resume(self, event: FlowEvent) -> (r: TableStep)
        requires
            event is Failed || (table_awaits_text(self.stage) <==> event is Text),
        ensures
            table_step_ok(self, event, r),
    {
        match (self.stage, event) {
            (_, FlowEvent::Failed(e)) => TableStep::Finish(Err(e)),
            (TableStage::AwaitCreate, FlowEvent::Text(_)) => {
                let mut url = owned("/sap/bc/adt/ddic/tables/");
                let encoded = crate::mcp::encode::encode_path_segment(to_lower(self.table_name.as_str()).as_str());
                append(&mut url, encoded.as_str());
                let target = url.clone();
                TableStep::Next(
                    CreateTableFlow { table_url: url, stage: TableStage::AwaitLock, ..self },
                    FlowAction::Lock { object_url: target },
                )
            },
            (TableStage::AwaitLock, FlowEvent::Value(lock)) => {
                let handle = match take_lock_handle(&lock, self.tool.as_str()) {
                    Ok(h) => h,
                    Err(e) => {
                        return TableStep::Finish(Err(e));
                    },
                };
                let action = FlowAction::WriteSource {
                    uri: concat(self.table_url.as_str(), "/source/main"),
                    source: self.ddl.clone(),
                    lock_handle: handle.clone(),
                    transport: self.transport.clone(),
                };
                TableStep::Next(CreateTableFlow { lock_handle: handle, stage: TableStage::AwaitWrite, ..self }, action)
            },
            (TableStage::AwaitWrite, FlowEvent::Text(_)) => {
                let action = FlowAction::Unlock {
                    object_url: self.table_url.clone(),
                    lock_handle: self.lock_handle.clone(),
                };
                TableStep::Next(CreateTableFlow { stage: TableStage::AwaitUnlock, ..self }, action)
            },
            (TableStage::AwaitUnlock, FlowEvent::Value(_)) => {
                let action = FlowAction::Activate {
                    object_url: self.table_url.clone(),
                    object_name: self.table_name.clone(),
                };
                TableStep::Next(CreateTableFlow { stage: TableStage::AwaitActivation, ..self }, action)
            },
            (TableStage::AwaitActivation, FlowEvent::Value(v)) => TableStep::Finish(
                Ok(TableOutcome { table: self.table_name, package: self.package, field_count: self.field_count, activation: v }),
            ),
            _ => vstd::pervasive::unreached(),
        }
    }
}

} // verus!
