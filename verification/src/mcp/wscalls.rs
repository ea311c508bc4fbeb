//! The calls that the report, debugger and AMDP tools send over the
//! WebSocket channel: domain, action and payload.
use vstd::prelude::*;

use crate::errors::NeuroMcpError;
use crate::json::JsonValue;
use crate::mcp::create::invalid_arguments;
use crate::mcp::jsonx::{extract_json_string, keys_view, spec_extract_json_string};
use crate::mcp::paths::{canon, canon_string};
use crate::mcp::requests::{base64_encode, base64_of_text};
use crate::text::{concat, decimal, decimal_string, owned, trim, trim_seq};


verus! {

/// A call on the WebSocket channel.
#[derive(Debug)]
pub struct WsCall {
    pub domain: &'static str,
    pub action: &'static str,
    pub payload: JsonValue,
}

/// `v` is the JSON string `t`.
pub open spec fn is_text(v: JsonValue, t: Seq<char>) -> bool {
    v matches JsonValue::Str(s) && s@ == t
}

/// `v` is the JSON number `n`.
pub open spec fn is_number(v: JsonValue, n: nat) -> bool {
    v matches JsonValue::Number(s) && s@ == decimal(n)
}

/// The members of a JSON object, or none for anything else.
pub open spec fn members(v: JsonValue) -> Seq<(String, JsonValue)> {
    match v {
        JsonValue::Object(ms) => ms@,
        _ => Seq::empty(),
    }
}

/// `c` goes to `domain` with `action`, and its payload is an object.
pub open spec fn call_to(c: WsCall, domain: Seq<char>, action: Seq<char>) -> bool {
    c.domain@ == domain && c.action@ == action && c.payload is Object
}

fn text(v: &str) -> (r: JsonValue)
    ensures
        is_text(r, v@),
{
    JsonValue::Str(owned(v))
}

/// The payload members of a report run: the report, the variant when
/// given and not blank, and the parameters when given.
pub open spec fn run_report_ok(c: WsCall, report: Seq<char>, variant: Option<Seq<char>>, params: Option<JsonValue>) -> bool {
    let ms = members(c.payload);
    let has_variant = match variant {
        Some(v) => trim_seq(v).len() > 0,
        None => false,
    };
    let n = 1 + (if has_variant { 1int } else { 0 }) + (if params is Some { 1int } else { 0 });
    &&& call_to(c, "report"@, "runReport"@)
    &&& ms.len() == n
    &&& ms[0].0@ == "report"@ && is_text(ms[0].1, report)
    &&& has_variant ==> ms[1].0@ == "variant"@ && is_text(ms[1].1, variant->0)
    &&& params matches Some(p) ==> ms[n - 1].0@ == "params"@ && ms[n - 1].1 == p
}

/// The call that runs a report (the report must be given).
pub fn run_report_call(report: Option<String>, variant: Option<String>, params: Option<JsonValue>, tool_name: &str) -> (r: Result<
    WsCall,
    NeuroMcpError,
>)
    ensures
        match report {
            None => r matches Err(NeuroMcpError::InvalidArguments { tool, message }) && tool@
                == tool_name@ && message@ == "report is required"@,
            Some(rep) => r matches Ok(c) && run_report_ok(c, rep@, crate::xml::opt_text(variant), params),
        },
{
    let report = match report {
        Some(r) => r,
        None => {
            return Err(invalid_arguments(tool_name, "report is required"));
        },
    };
    let mut ms: Vec<(String, JsonValue)> = Vec::new();
    ms.push((owned("report"), JsonValue::Str(report)));
    match variant {
        Some(v) => {
            let cleaned = trim(v.as_str());
            if !cleaned.as_str().is_empty() {
                ms.push((owned("variant"), JsonValue::Str(v)));
            }
        },
        None => {},
    }
    match params {
        Some(p) => {
            ms.push((owned("params"), p));
        },
        None => {},
    }
    Ok(WsCall { domain: "report", action: "runReport", payload: JsonValue::Object(ms) })
}

/// The call that lists a report's variants (the report must be given).
pub fn variants_call(report: Option<String>, tool_name: &str) -> (r: Result<WsCall, NeuroMcpError>)
    ensures
        match report {
            None => r matches Err(NeuroMcpError::InvalidArguments { tool, message }) && tool@
                == tool_name@ && message@ == "report is required"@,
            Some(rep) => r matches Ok(c) && call_to(c, "report"@, "getVariants"@) && members(c.payload).len()
                == 1 && members(c.payload)[0].0@ == "report"@ && is_text(members(c.payload)[0].1, rep@),
        },
{
    let report = match report {
        Some(r) => r,
        None => {
            return Err(invalid_arguments(tool_name, "report is required"));
        },
    };
    let mut ms: Vec<(String, JsonValue)> = Vec::new();
    ms.push((owned("report"), JsonValue::Str(report)));
    Ok(WsCall { domain: "report", action: "getVariants", payload: JsonValue::Object(ms) })
}

/// Members as plain keys and values.
pub open spec fn member_views(ms: Seq<(String, JsonValue)>) -> Seq<(Seq<char>, JsonValue)> {
    ms.map_values(|m: (String, JsonValue)| (m.0@, m.1))
}

/// The members among `items` whose value is given, in order.
pub open spec fn given_members(items: Seq<(Seq<char>, Option<JsonValue>)>) -> Seq<(Seq<char>, JsonValue)>
    decreases items.len(),
{
    if items.len() == 0 {
        Seq::empty()
    } else {
        let rest = given_members(items.drop_last());
        match items.last().1 {
            Some(v) => rest.push((items.last().0, v)),
            None => rest,
        }
    }
}

/// The payload of a text elements call: the program, then the language
/// when given and not blank, then the texts that are given.
pub open spec fn text_elements_ok(
    c: WsCall,
    action: Seq<char>,
    program: Seq<char>,
    language: Option<Seq<char>>,
    texts: Seq<(Seq<char>, Option<JsonValue>)>,
) -> bool {
    let ms = members(c.payload);
    let has_language = match language {
        Some(l) => trim_seq(l).len() > 0,
        None => false,
    };
    let first = if has_language { 2int } else { 1int };
    &&& call_to(c, "report"@, action)
    &&& ms.len() >= first
    &&& ms[0].0@ == "program"@ && is_text(ms[0].1, program)
    &&& has_language ==> ms[1].0@ == "language"@ && is_text(ms[1].1, language->0)
    &&& member_views(ms).skip(first) == given_members(texts)
}

fn push_given(ms: &mut Vec<(String, JsonValue)>, key: &str, value: Option<JsonValue>)
    ensures
        member_views(final(ms)@) == member_views(old(ms)@) + match value {
            Some(v) => seq![(key@, v)],
            None => Seq::empty(),
        },
{
    let ghost before = ms@;
    match value {
        Some(v) => {
            ms.push((owned(key), v));
        },
        None => {},
    }
    assert(member_views(ms@) =~= member_views(before) + match value {
        Some(v) => seq![(key@, v)],
        None => Seq::empty(),
    });
}

/// The program and (when not blank) language members of a text elements
/// call.
fn program_members(program: String, language: Option<String>) -> (r: Vec<(String, JsonValue)>)
    ensures
        r@.len() == if (match language {
            Some(l) => trim_seq(l@).len() > 0,
            None => false,
        }) {
            2int
        } else {
            1int
        },
        r@[0].0@ == "program"@ && is_text(r@[0].1, program@),
        (match language {
            Some(l) => trim_seq(l@).len() > 0,
            None => false,
        }) ==> r@[1].0@ == "language"@ && is_text(r@[1].1, language->0@),
{
    let mut ms: Vec<(String, JsonValue)> = Vec::new();
    ms.push((owned("program"), JsonValue::Str(program)));
    match language {
        Some(l) => {
            let cleaned = trim(l.as_str());
            if !cleaned.as_str().is_empty() {
                ms.push((owned("language"), JsonValue::Str(l)));
            }
        },
        None => {},
    }
    ms
}

/// The call that reads a program's text elements (the program must be
/// given).
pub fn text_elements_call(program: Option<String>, language: Option<String>, tool_name: &str) -> (r: Result<
    WsCall,
    NeuroMcpError,
>)
    ensures
        match program {
            None => r matches Err(NeuroMcpError::InvalidArguments { tool, message }) && tool@
                == tool_name@ && message@ == "program is required"@,
            Some(p) => r matches Ok(c) && text_elements_ok(
                c,
                "getTextElements"@,
                p@,
                crate::xml::opt_text(language),
                Seq::empty(),
            ),
        },
{
    let program = match program {
        Some(p) => p,
        None => {
            return Err(invalid_arguments(tool_name, "program is required"));
        },
    };
    let ms = program_members(program, language);
    proof {
        let first = ms@.len() as int;
        assert(member_views(ms@).skip(first) =~= given_members(Seq::empty()));
    }
    Ok(WsCall { domain: "report", action: "getTextElements", payload: JsonValue::Object(ms) })
}

/// The call that sets a program's text elements (the program must be
/// given): selection texts, text symbols and headings as given.
pub fn set_text_elements_call(
    program: Option<String>,
    language: Option<String>,
    selection_texts: Option<JsonValue>,
    text_symbols: Option<JsonValue>,
    heading_texts: Option<JsonValue>,
    tool_name: &str,
) -> (r: Result<WsCall, NeuroMcpError>)
    ensures
        match program {
            None => r matches Err(NeuroMcpError::InvalidArguments { tool, message }) && tool@
                == tool_name@ && message@ == "program is required"@,
            Some(p) => r matches Ok(c) && text_elements_ok(
                c,
                "setTextElements"@,
                p@,
                crate::xml::opt_text(language),
                seq![
                    ("selection_texts"@, selection_texts),
                    ("text_symbols"@, text_symbols),
                    ("heading_texts"@, heading_texts),
                ],
            ),
        },
{
    let program = match program {
        Some(p) => p,
        None => {
            return Err(invalid_arguments(tool_name, "program is required"));
        },
    };
    let mut ms = program_members(program, language);
    let ghost head = ms@;
    push_given(&mut ms, "selection_texts", selection_texts);
    push_given(&mut ms, "text_symbols", text_symbols);
    push_given(&mut ms, "heading_texts", heading_texts);
    proof {
        let items = seq![
            ("selection_texts"@, selection_texts),
            ("text_symbols"@, text_symbols),
            ("heading_texts"@, heading_texts),
        ];
        let one = |k: Seq<char>, v: Option<JsonValue>| match v {
            Some(x) => seq![(k, x)],
            None => Seq::<(Seq<char>, JsonValue)>::empty(),
        };
        reveal_with_fuel(given_members, 4);
        assert(items.drop_last().drop_last().drop_last() =~= Seq::<(Seq<char>, Option<JsonValue>)>::empty());
        assert(items.drop_last().drop_last() =~= seq![items[0]]);
        assert(items.drop_last() =~= seq![items[0], items[1]]);
        let tail = one("selection_texts"@, selection_texts) + one("text_symbols"@, text_symbols) + one(
            "heading_texts"@,
            heading_texts,
        );
        assert(given_members(items) =~= tail);
        let hv = member_views(head);
        let mv = member_views(ms@);
        assert(mv =~= hv + tail);
        let first = head.len() as int;
        assert(mv.skip(first) =~= tail);
        assert(mv[0] == hv[0]);
        assert(mv[0] == (ms@[0].0@, ms@[0].1));
        assert(hv[0] == (head[0].0@, head[0].1));
        if first == 2 {
            assert(mv[1] == hv[1]);
            assert(mv[1] == (ms@[1].0@, ms@[1].1));
            assert(hv[1] == (head[1].0@, head[1].1));
        }
    }
    Ok(WsCall { domain: "report", action: "setTextElements", payload: JsonValue::Object(ms) })
}

/// The calls whose payload is empty.
#[derive(Clone, Copy, Debug, PartialEq, Eq, Structural)]
pub enum PlainCall {
    GetBreakpoints,
    DebuggerDetach,
    DebuggerGetStack,
    AmdpResume,
    AmdpStop,
    AmdpGetVariables,
    AmdpGetBreakpoints,
}

/// The domain and action of a call with an empty payload.
pub open spec fn plain_call_target(k: PlainCall) -> (Seq<char>, Seq<char>) {
    match k {
        PlainCall::GetBreakpoints => ("debug"@, "getBreakpoints"@),
        PlainCall::DebuggerDetach => ("debug"@, "detach"@),
        PlainCall::DebuggerGetStack => ("debug"@, "getStack"@),
        PlainCall::AmdpResume => ("amdp"@, "resume"@),
        PlainCall::AmdpStop => ("amdp"@, "stop"@),
        PlainCall::AmdpGetVariables => ("amdp"@, "getVariables"@),
        PlainCall::AmdpGetBreakpoints => ("amdp"@, "getBreakpoints"@),
    }
}

/// A call with an empty payload.
pub fn plain_call(k: PlainCall) -> (r: WsCall)
    ensures
        call_to(r, plain_call_target(k).0, plain_call_target(k).1),
        members(r.payload).len() == 0,
{
    let (domain, action): (&'static str, &'static str) = match k {
        PlainCall::GetBreakpoints => ("debug", "getBreakpoints"),
        PlainCall::DebuggerDetach => ("debug", "detach"),
        PlainCall::DebuggerGetStack => ("debug", "getStack"),
        PlainCall::AmdpResume => ("amdp", "resume"),
        PlainCall::AmdpStop => ("amdp", "stop"),
        PlainCall::AmdpGetVariables => ("amdp", "getVariables"),
        PlainCall::AmdpGetBreakpoints => ("amdp", "getBreakpoints"),
    };
    WsCall { domain, action, payload: JsonValue::Object(Vec::new()) }
}

/// `c` goes to `domain` with `action` and a payload of one text member.
pub open spec fn one_text_call(c: WsCall, domain: Seq<char>, action: Seq<char>, key: Seq<char>, value: Seq<char>) -> bool {
    &&& call_to(c, domain, action)
    &&& members(c.payload).len() == 1
    &&& members(c.payload)[0].0@ == key
    &&& is_text(members(c.payload)[0].1, value)
}

fn one_text(domain: &'static str, action: &'static str, key: &str, value: String) -> (r: WsCall)
    ensures
        one_text_call(r, domain@, action@, key@, value@),
{
    let mut ms: Vec<(String, JsonValue)> = Vec::new();
    ms.push((owned(key), JsonValue::Str(value)));
    WsCall { domain, action, payload: JsonValue::Object(ms) }
}

/// The call that deletes a breakpoint (its id must be given).
pub fn delete_breakpoint_call(breakpoint_id: Option<String>, tool_name: &str) -> (r: Result<WsCall, NeuroMcpError>)
    ensures
        match breakpoint_id {
            None => r matches Err(NeuroMcpError::InvalidArguments { tool, message }) && tool@
                == tool_name@ && message@ == "breakpoint_id is required"@,
            Some(b) => r matches Ok(c) && one_text_call(c, "debug"@, "deleteBreakpoint"@, "breakpointId"@, b@),
        },
{
    match breakpoint_id {
        Some(b) => Ok(one_text("debug", "deleteBreakpoint", "breakpointId", b)),
        None => Err(invalid_arguments(tool_name, "breakpoint_id is required")),
    }
}

/// The call that attaches the debugger to a debuggee (its id must be
/// given).
pub fn debugger_attach_call(debuggee_id: Option<String>, tool_name: &str) -> (r: Result<WsCall, NeuroMcpError>)
    ensures
        match debuggee_id {
            None => r matches Err(NeuroMcpError::InvalidArguments { tool, message }) && tool@
                == tool_name@ && message@ == "debuggee_id is required"@,
            Some(d) => r matches Ok(c) && one_text_call(c, "debug"@, "attach"@, "debuggeeId"@, d@),
        },
{
    match debuggee_id {
        Some(d) => Ok(one_text("debug", "attach", "debuggeeId", d)),
        None => Err(invalid_arguments(tool_name, "debuggee_id is required")),
    }
}

/// The stepping tools.
#[derive(Clone, Copy, Debug, PartialEq, Eq, Structural)]
pub enum StepDomain {
    /// The ABAP debugger: steps into unless told otherwise.
    Debugger,
    /// The AMDP debugger: steps over unless told otherwise.
    Amdp,
}

/// The domain and default step of a stepping tool.
pub open spec fn step_defaults(k: StepDomain) -> (Seq<char>, Seq<char>) {
    match k {
        StepDomain::Debugger => ("debug"@, "into"@),
        StepDomain::Amdp => ("amdp"@, "over"@),
    }
}

/// The call that steps a debugger.
pub fn step_call(k: StepDomain, step_type: Option<String>) -> (r: WsCall)
    ensures
        one_text_call(
            r,
            step_defaults(k).0,
            "step"@,
            "type"@,
            match step_type {
                Some(t) => t@,
                None => step_defaults(k).1,
            },
        ),
{
    let (domain, default): (&'static str, &'static str) = match k {
        StepDomain::Debugger => ("debug", "into"),
        StepDomain::Amdp => ("amdp", "over"),
    };
    let step = match step_type {
        Some(t) => t,
        None => owned(default),
    };
    one_text(domain, "step", "type", step)
}

/// The call that reads the debugger's variables in a scope (`system`
/// unless given).
pub fn debugger_variables_call(scope: Option<String>) -> (r: WsCall)
    ensures
        one_text_call(r, "debug"@, "getVariables"@, "scope"@, match scope {
            Some(s) => s@,
            None => "system"@,
        }),
{
    let scope = match scope {
        Some(s) => s,
        None => owned("system"),
    };
    one_text("debug", "getVariables", "scope", scope)
}

/// The listening timeout: 60 seconds unless given, kept within 1 to 240.
pub open spec fn listen_timeout(timeout: Option<u32>) -> nat {
    let t = match timeout {
        Some(t) => t as nat,
        None => 60,
    };
    if t < 1 {
        1
    } else if t > 240 {
        240
    } else {
        t
    }
}

/// The configured SAP user, trimmed and upper-cased; empty when unknown.
pub open spec fn session_user(env_user: Option<Seq<char>>) -> Seq<char> {
    match env_user {
        Some(u) => canon(u),
        None => Seq::empty(),
    }
}

fn session_user_text(env_user: Option<String>) -> (r: String)
    ensures
        r@ == session_user(crate::xml::opt_text(env_user)),
{
    match env_user {
        Some(u) => canon_string(u.as_str()),
        None => String::new(),
    }
}

/// The call that waits for a debuggee, for the configured user when one
/// is known.
pub fn debugger_listen_call(timeout: Option<u32>, env_user: Option<String>) -> (r: WsCall)
    ensures
        call_to(r, "debug"@, "listen"@),
        members(r.payload).len() == if session_user(crate::xml::opt_text(env_user)).len() == 0 {
            1int
        } else {
            2int
        },
        members(r.payload)[0].0@ == "timeout"@ && is_number(members(r.payload)[0].1, listen_timeout(timeout)),
        session_user(crate::xml::opt_text(env_user)).len() > 0 ==> members(r.payload)[1].0@ == "user"@
            && is_text(members(r.payload)[1].1, session_user(crate::xml::opt_text(env_user))),
{
    let t: u32 = match timeout {
        Some(t) => if t < 1 {
            1
        } else if t > 240 {
            240
        } else {
            t
        },
        None => 60,
    };
    let user = session_user_text(env_user);
    let mut ms: Vec<(String, JsonValue)> = Vec::new();
    ms.push((owned("timeout"), JsonValue::Number(decimal_string(t as u64))));
    if !user.as_str().is_empty() {
        ms.push((owned("user"), JsonValue::Str(user)));
    }
    WsCall { domain: "debug", action: "listen", payload: JsonValue::Object(ms) }
}

/// The call that starts the AMDP debugger (cascade mode `FULL` unless
/// given), for the configured user when one is known.
pub fn amdp_start_call(cascade_mode: Option<String>, env_user: Option<String>) -> (r: WsCall)
    ensures
        call_to(r, "amdp"@, "start"@),
        members(r.payload).len() == if session_user(crate::xml::opt_text(env_user)).len() == 0 {
            1int
        } else {
            2int
        },
        members(r.payload)[0].0@ == "cascadeMode"@ && is_text(members(r.payload)[0].1, match cascade_mode {
            Some(m) => m@,
            None => "FULL"@,
        }),
        session_user(crate::xml::opt_text(env_user)).len() > 0 ==> members(r.payload)[1].0@ == "user"@
            && is_text(members(r.payload)[1].1, session_user(crate::xml::opt_text(env_user))),
{
    let mode = match cascade_mode {
        Some(m) => m,
        None => owned("FULL"),
    };
    let user = session_user_text(env_user);
    let mut ms: Vec<(String, JsonValue)> = Vec::new();
    ms.push((owned("cascadeMode"), JsonValue::Str(mode)));
    if !user.as_str().is_empty() {
        ms.push((owned("user"), JsonValue::Str(user)));
    }
    WsCall { domain: "amdp", action: "start", payload: JsonValue::Object(ms) }
}

/// The call that sets an AMDP breakpoint (program and line must be
/// given).
pub fn amdp_breakpoint_call(program: Option<String>, line: Option<u32>, tool_name: &str) -> (r: Result<WsCall, NeuroMcpError>)
    ensures
        match (program, line) {
            (None, _) => r matches Err(NeuroMcpError::InvalidArguments { tool, message }) && tool@
                == tool_name@ && message@ == "program is required"@,
            (Some(_), None) => r matches Err(NeuroMcpError::InvalidArguments { tool, message })
                && tool@ == tool_name@ && message@ == "line is required"@,
            (Some(p), Some(l)) => r matches Ok(c) && call_to(c, "amdp"@, "setBreakpoint"@) && members(
                c.payload,
            ).len() == 2 && members(c.payload)[0].0@ == "program"@ && is_text(members(c.payload)[0].1, p@)
                && members(c.payload)[1].0@ == "line"@ && is_number(members(c.payload)[1].1, l as nat),
        },
{
    let program = match program {
        Some(p) => p,
        None => {
            return Err(invalid_arguments(tool_name, "program is required"));
        },
    };
    let line = match line {
        Some(l) => l,
        None => {
            return Err(invalid_arguments(tool_name, "line is required"));
        },
    };
    let mut ms: Vec<(String, JsonValue)> = Vec::new();
    ms.push((owned("program"), JsonValue::Str(program)));
    ms.push((owned("line"), JsonValue::Number(decimal_string(line as u64))));
    Ok(WsCall { domain: "amdp", action: "setBreakpoint", payload: JsonValue::Object(ms) })
}

/// The call that sets a debugger breakpoint with the tool's arguments,
/// which must be a JSON object.
pub fn set_breakpoint_call(arguments: JsonValue, tool_name: &str) -> (r: Result<WsCall, NeuroMcpError>)
    ensures
        match arguments {
            JsonValue::Object(_) => r matches Ok(c) && c.domain@ == "debug"@ && c.action@ == "setBreakpoint"@
                && c.payload == arguments,
            _ => r matches Err(NeuroMcpError::InvalidArguments { tool, message }) && tool@ == tool_name@
                && message@ == "arguments must be a JSON object"@,
        },
{
    match arguments {
        JsonValue::Object(ms) => Ok(WsCall { domain: "debug", action: "setBreakpoint", payload: JsonValue::Object(ms) }),
        _ => Err(invalid_arguments(tool_name, "arguments must be a JSON object")),
    }
}

/// The parameters of an RFC call as sent: a text parameter is sent as the
/// JSON it holds when it holds JSON (`parsed`), else as that text; any
/// other value as it is.
pub open spec fn rfc_params(params: Option<JsonValue>, parsed: Option<JsonValue>) -> Option<JsonValue> {
    match params {
        Some(JsonValue::Str(t)) => match parsed {
            Some(v) => Some(v),
            None => Some(JsonValue::Str(t)),
        },
        Some(v) => Some(v),
        None => None,
    }
}

/// The payload of an RFC call: the function, then the parameters' members
/// when they are an object, else the parameters under `params`.
pub open spec fn rfc_call_ok(c: WsCall, function: Seq<char>, params: Option<JsonValue>) -> bool {
    let ms = members(c.payload);
    &&& call_to(c, "rfc"@, "call"@)
    &&& ms.len() >= 1
    &&& ms[0].0@ == "function"@ && is_text(ms[0].1, function)
    &&& match params {
        Some(JsonValue::Object(ps)) => member_views(ms).skip(1) == member_views(ps@),
        Some(v) => ms.len() == 2 && ms[1].0@ == "params"@ && ms[1].1 == v,
        None => ms.len() == 1,
    }
}

/// The call of a remote function (the function must be given); `parsed`
/// is the JSON that a text parameter holds, when it holds JSON.
pub fn rfc_call(function: Option<String>, params: Option<JsonValue>, parsed: Option<JsonValue>, tool_name: &str) -> (r: Result<
    WsCall,
    NeuroMcpError,
>)
    ensures
        match function {
            None => r matches Err(NeuroMcpError::InvalidArguments { tool, message }) && tool@
                == tool_name@ && message@ == "function is required"@,
            Some(f) => r matches Ok(c) && rfc_call_ok(c, f@, rfc_params(params, parsed)),
        },
{
    let function = match function {
        Some(f) => f,
        None => {
            return Err(invalid_arguments(tool_name, "function is required"));
        },
    };
    let effective = match params {
        Some(JsonValue::Str(t)) => match parsed {
            Some(v) => Some(v),
            None => Some(JsonValue::Str(t)),
        },
        Some(v) => Some(v),
        None => None,
    };
    let mut ms: Vec<(String, JsonValue)> = Vec::new();
    ms.push((owned("function"), JsonValue::Str(function)));
    let ghost head = ms@;
    match effective {
        Some(JsonValue::Object(ps)) => {
            let total = ps.len();
            let ghost pv = ps@;
            assert(pv.len() == total);
            let mut rest = ps;
            let mut taken: usize = 0;
            while rest.len() > 0
                invariant
                    ms@.len() == 1 + taken,
                    ms@[0] == head[0],
                    taken + rest@.len() == pv.len(),
                    pv.len() <= usize::MAX,
                    rest@ == pv.skip(taken as int),
                    member_views(ms@).skip(1) == member_views(pv.take(taken as int)),
                decreases rest@.len(),
            {
                let ghost before = ms@;
                let m = rest.remove(0);
                assert(m == pv[taken as int]);
                ms.push(m);
                proof {
                    assert(member_views(pv.take(taken + 1)) =~= member_views(pv.take(taken as int)).push((m.0@, m.1)));
                    assert(member_views(ms@).skip(1) =~= member_views(before).skip(1).push((m.0@, m.1)));
                    assert(rest@ =~= pv.skip(taken + 1));
                }
                taken += 1;
            }
            assert(pv.take(pv.len() as int) =~= pv);
        },
        Some(v) => {
            ms.push((owned("params"), v));
        },
        None => {},
    }
    Ok(WsCall { domain: "rfc", action: "call", payload: JsonValue::Object(ms) })
}

/// The call that moves an object to another package (type, name and new
/// package must be given).
pub fn move_object_call(
    object_type: Option<String>,
    object_name: Option<String>,
    new_package: Option<String>,
    tool_name: &str,
) -> (r: Result<WsCall, NeuroMcpError>)
    ensures
        match (object_type, object_name, new_package) {
            (None, _, _) => r matches Err(NeuroMcpError::InvalidArguments { tool, message }) && tool@
                == tool_name@ && message@ == "object_type is required"@,
            (Some(_), None, _) => r matches Err(NeuroMcpError::InvalidArguments { tool, message })
                && tool@ == tool_name@ && message@ == "object_name is required"@,
            (Some(_), Some(_), None) => r matches Err(NeuroMcpError::InvalidArguments { tool, message })
                && tool@ == tool_name@ && message@ == "new_package is required"@,
            (Some(t), Some(n), Some(p)) => r matches Ok(c) && call_to(c, "rfc"@, "moveToPackage"@) && members(
                c.payload,
            ).len() == 3 && members(c.payload)[0].0@ == "object"@ && is_text(members(c.payload)[0].1, t@)
                && members(c.payload)[1].0@ == "obj_name"@ && is_text(members(c.payload)[1].1, n@)
                && members(c.payload)[2].0@ == "new_package"@ && is_text(members(c.payload)[2].1, p@),
        },
{
    let object_type = match object_type {
        Some(t) => t,
        None => {
            return Err(invalid_arguments(tool_name, "object_type is required"));
        },
    };
    let object_name = match object_name {
        Some(n) => n,
        None => {
            return Err(invalid_arguments(tool_name, "object_name is required"));
        },
    };
    let new_package = match new_package {
        Some(p) => p,
        None => {
            return Err(invalid_arguments(tool_name, "new_package is required"));
        },
    };
    let mut ms: Vec<(String, JsonValue)> = Vec::new();
    ms.push((owned("object"), JsonValue::Str(object_type)));
    ms.push((owned("obj_name"), JsonValue::Str(object_name)));
    ms.push((owned("new_package"), JsonValue::Str(new_package)));
    Ok(WsCall { domain: "rfc", action: "moveToPackage", payload: JsonValue::Object(ms) })
}

/// The call that lists the object types the Git export knows.
pub fn git_types_call() -> (r: WsCall)
    ensures
        call_to(r, "git"@, "getTypes"@),
        members(r.payload).len() == 0,
{
    WsCall { domain: "git", action: "getTypes", payload: JsonValue::Object(Vec::new()) }
}

/// `v` is the JSON array of the texts `items`.
pub open spec fn is_text_array(v: JsonValue, items: Seq<Seq<char>>) -> bool {
    v matches JsonValue::Array(a) && a@.len() == items.len() && forall|i: int|
        0 <= i < items.len() ==> is_text(#[trigger] a@[i], items[i])
}

/// The payload of a Git export: the packages listed (when any), the
/// objects (when given), and whether sub-packages go too.
pub open spec fn git_export_ok(c: WsCall, packages: Seq<Seq<char>>, objects: Option<JsonValue>, include_subpackages: bool) -> bool {
    let ms = members(c.payload);
    let n = (if packages.len() > 0 { 1int } else { 0 }) + (if objects is Some { 1int } else { 0 });
    &&& call_to(c, "git"@, "export"@)
    &&& ms.len() == n + 1
    &&& packages.len() > 0 ==> ms[0].0@ == "packages"@ && is_text_array(ms[0].1, packages)
    &&& objects matches Some(o) ==> ms[n - 1].0@ == "objects"@ && ms[n - 1].1 == o
    &&& ms[n].0@ == "includeSubpackages"@ && ms[n].1 == JsonValue::Bool(include_subpackages)
}

/// The call that exports packages or objects to Git: `packages` is a
/// comma-separated list; `decoded` is the JSON decoding of the objects
/// text, when one is given (else it is not read). At least one of the two
/// must be given.
pub fn git_export_call(
    packages: Option<String>,
    objects: Option<String>,
    decoded: Result<JsonValue, String>,
    include_subpackages: Option<bool>,
    tool_name: &str,
) -> (r: Result<WsCall, NeuroMcpError>)
    ensures
        ({
            let listed = match packages {
                Some(p) => crate::mcp::abapfile::clean_pieces(crate::text::split_seq(p@, ',')),
                None => Seq::empty(),
            };
            match (objects, decoded) {
                (Some(_), Err(e)) => r matches Err(NeuroMcpError::InvalidArguments { tool, message }) && tool@
                    == tool_name@ && message@ == "invalid objects JSON: "@ + e@,
                _ => {
                    let given = match objects {
                        Some(_) => match decoded {
                            Ok(v) => Some(v),
                            Err(_) => None,
                        },
                        None => None,
                    };
                    if listed.len() == 0 && objects is None {
                        r matches Err(NeuroMcpError::InvalidArguments { tool, message }) && tool@ == tool_name@
                            && message@ == "either packages or objects parameter is required"@
                    } else {
                        r matches Ok(c) && git_export_ok(c, listed, given, include_subpackages != Some(false))
                    }
                },
            }
        }),
{
    let mut ms: Vec<(String, JsonValue)> = Vec::new();
    let listed: Vec<String> = match packages {
        Some(p) => crate::mcp::abapfile::clean_split(p.as_str(), ','),
        None => Vec::new(),
    };
    let ghost lv = listed@.map_values(|x: String| x@);
    let has_packages = listed.len() > 0;
    if has_packages {
        let mut items: Vec<JsonValue> = Vec::new();
        let mut i: usize = 0;
        while i < listed.len()
            invariant
                i <= listed@.len(),
                lv == listed@.map_values(|x: String| x@),
                items@.len() == i,
                forall|k: int| 0 <= k < i ==> is_text(#[trigger] items@[k], lv[k]),
            decreases listed@.len() - i,
        {
            items.push(JsonValue::Str(listed[i].clone()));
            i += 1;
        }
        ms.push((owned("packages"), JsonValue::Array(items)));
    }
    let has_objects = objects.is_some();
    if has_objects {
        match decoded {
            Ok(v) => {
                ms.push((owned("objects"), v));
            },
            Err(e) => {
                let message = concat("invalid objects JSON: ", e.as_str());
                return Err(invalid_arguments(tool_name, message.as_str()));
            },
        }
    }
    let with_subpackages = match include_subpackages {
        Some(b) => b,
        None => true,
    };
    ms.push((owned("includeSubpackages"), JsonValue::Bool(with_subpackages)));
    if !has_packages && !has_objects {
        return Err(invalid_arguments(tool_name, "either packages or objects parameter is required"));
    }
    Ok(WsCall { domain: "git", action: "export", payload: JsonValue::Object(ms) })
}

/// The job that a background report run started: its name, its count and
/// the report, from the run's reply.
pub open spec fn started_job(payload: JsonValue) -> Option<(Seq<char>, Seq<char>, Seq<char>)> {
    match spec_extract_json_string(payload, seq!["jobname"@, "jobName"@, "job_name"@]) {
        Some(name) => match spec_extract_json_string(payload, seq!["jobcount"@, "jobCount"@, "job_count"@]) {
            Some(count) => Some(
                (
                    name,
                    count,
                    match spec_extract_json_string(payload, seq!["report"@]) {
                        Some(r) => r,
                        None => Seq::empty(),
                    },
                ),
            ),
            None => None,
        },
        None => None,
    }
}

/// The job that a background report run started, from the run's reply:
/// its name and count must be there.
pub fn started_job_of(payload: &JsonValue, tool_name: &str) -> (r: Result<(String, String, String), NeuroMcpError>)
    ensures
        match spec_extract_json_string(*payload, seq!["jobname"@, "jobName"@, "job_name"@]) {
            None => r matches Err(NeuroMcpError::InvalidArguments { tool, message }) && tool@
                == tool_name@ && message@ == "runReport response does not contain job name"@,
            Some(_) => match spec_extract_json_string(*payload, seq!["jobcount"@, "jobCount"@, "job_count"@]) {
                None => r matches Err(NeuroMcpError::InvalidArguments { tool, message }) && tool@
                    == tool_name@ && message@ == "runReport response does not contain job count"@,
                Some(_) => r matches Ok((n, c, rep)) && started_job(*payload) == Some((n@, c@, rep@)),
            },
        },
{
    let name_keys = ["jobname", "jobName", "job_name"];
    assert(keys_view(name_keys@) =~= seq!["jobname"@, "jobName"@, "job_name"@]);
    let count_keys = ["jobcount", "jobCount", "job_count"];
    assert(keys_view(count_keys@) =~= seq!["jobcount"@, "jobCount"@, "job_count"@]);
    let report_keys = ["report"];
    assert(keys_view(report_keys@) =~= seq!["report"@]);
    let name = match extract_json_string(payload, &name_keys) {
        Some(n) => n,
        None => {
            return Err(invalid_arguments(tool_name, "runReport response does not contain job name"));
        },
    };
    let count = match extract_json_string(payload, &count_keys) {
        Some(c) => c,
        None => {
            return Err(invalid_arguments(tool_name, "runReport response does not contain job count"));
        },
    };
    let report = match extract_json_string(payload, &report_keys) {
        Some(r) => r,
        None => String::new(),
    };
    Ok((name, count, report))
}

/// The id of a background task: the standard base64 of the task's JSON
/// text.
pub fn task_id_of(task_json: &str) -> (r: String)
    ensures
        r@ == base64_of_text(task_json@),
{
    base64_encode(task_json)
}

/// What standard base64 decoding gives for a text: the decoded bytes, or
/// the message of the decoder's error.
pub uninterp spec fn base64_decoding(text: Seq<char>) -> Result<Seq<u8>, Seq<char>>;

/// Decodes the UTF-8 bytes of `text` as standard base64 with padding
/// (`base64::engine::general_purpose::STANDARD`, `Engine::decode`); a
/// refusal comes back as the error's message (its `Display`). Claimed:
/// the outcome depends on `text` alone.
#[verifier::external_body]
fn base64_decode(text: &str) -> (r: Result<Vec<u8>, String>)
    ensures
        match r {
            Ok(b) => base64_decoding(text@) == Ok::<Seq<u8>, Seq<char>>(b@),
            Err(e) => base64_decoding(text@) == Err::<Seq<u8>, Seq<char>>(e@),
        },
{
    base64::Engine::decode(&base64::engine::general_purpose::STANDARD, text.as_bytes()).map_err(
        |error| error.to_string(),
    )
}

/// The bytes that a task id stands for: the id must be given and be
/// standard base64.
pub fn task_payload_of(task_id: Option<String>, tool_name: &str) -> (r: Result<Vec<u8>, NeuroMcpError>)
    ensures
        match task_id {
            None => r matches Err(NeuroMcpError::InvalidArguments { tool, message }) && tool@
                == tool_name@ && message@ == "task_id is required"@,
            Some(t) => match base64_decoding(t@) {
                Ok(b) => r matches Ok(x) && x@ == b,
                Err(e) => r matches Err(NeuroMcpError::InvalidArguments { tool, message }) && tool@
                    == tool_name@ && message@ == "invalid task_id: "@ + e,
            },
        },
{
    let task_id = match task_id {
        Some(t) => t,
        None => {
            return Err(invalid_arguments(tool_name, "task_id is required"));
        },
    };
    match base64_decode(task_id.as_str()) {
        Ok(bytes) => Ok(bytes),
        Err(e) => {
            let message = concat("invalid task_id: ", e.as_str());
            Err(invalid_arguments(tool_name, message.as_str()))
        },
    }
}

/// The job that a task id names, from its decoded JSON: its name and count
/// must be there.
pub fn task_job_of(decoded: &JsonValue, tool_name: &str) -> (r: Result<(String, String), NeuroMcpError>)
    ensures
        match spec_extract_json_string(*decoded, seq!["job_name"@]) {
            None => r matches Err(NeuroMcpError::InvalidArguments { tool, message }) && tool@
                == tool_name@ && message@ == "task_id missing job_name"@,
            Some(n) => match spec_extract_json_string(*decoded, seq!["job_count"@]) {
                None => r matches Err(NeuroMcpError::InvalidArguments { tool, message }) && tool@
                    == tool_name@ && message@ == "task_id missing job_count"@,
                Some(c) => r matches Ok((x, y)) && x@ == n && y@ == c,
            },
        },
{
    let name_keys = ["job_name"];
    assert(keys_view(name_keys@) =~= seq!["job_name"@]);
    let count_keys = ["job_count"];
    assert(keys_view(count_keys@) =~= seq!["job_count"@]);
    let name = match extract_json_string(decoded, &name_keys) {
        Some(n) => n,
        None => {
            return Err(invalid_arguments(tool_name, "task_id missing job_name"));
        },
    };
    let count = match extract_json_string(decoded, &count_keys) {
        Some(c) => c,
        None => {
            return Err(invalid_arguments(tool_name, "task_id missing job_count"));
        },
    };
    Ok((name, count))
}

/// The call that reads the status of a background job.
pub fn job_status_call(job_name: String, job_count: String) -> (r: WsCall)
    ensures
        call_to(r, "report"@, "getJobStatus"@),
        members(r.payload).len() == 2,
        members(r.payload)[0].0@ == "jobname"@ && is_text(members(r.payload)[0].1, job_name@),
        members(r.payload)[1].0@ == "jobcount"@ && is_text(members(r.payload)[1].1, job_count@),
{
    let mut ms: Vec<(String, JsonValue)> = Vec::new();
    ms.push((owned("jobname"), JsonValue::Str(job_name)));
    ms.push((owned("jobcount"), JsonValue::Str(job_count)));
    WsCall { domain: "report", action: "getJobStatus", payload: JsonValue::Object(ms) }
}

/// The call that reads one spool output.
pub fn spool_call(spool_id: String) -> (r: WsCall)
    ensures
        one_text_call(r, "report"@, "getSpoolOutput"@, "spool_id"@, spool_id@),
{
    one_text("report", "getSpoolOutput", "spool_id", spool_id)
}

} // verus!
