use neuro_runtime::errors::NeuroMcpError;
use neuro_runtime::json::JsonValue;
use neuro_runtime::mcp::wscalls::{
    amdp_breakpoint_call, amdp_start_call, debugger_attach_call, debugger_listen_call,
    debugger_variables_call, delete_breakpoint_call, git_export_call, git_types_call,
    job_status_call, move_object_call, plain_call, rfc_call, run_report_call, set_breakpoint_call,
    set_text_elements_call, spool_call, started_job_of, step_call, task_id_of, task_job_of, task_payload_of,
    text_elements_call,
    variants_call, PlainCall, StepDomain, WsCall,
};

fn refused_with<T: std::fmt::Debug>(result: Result<T, NeuroMcpError>, expected: &str) -> bool {
    matches!(result, Err(NeuroMcpError::InvalidArguments { ref message, .. }) if message == expected)
}

fn s(text: &str) -> Option<String> {
    Some(text.to_owned())
}

fn text(t: &str) -> JsonValue {
    JsonValue::Str(t.to_owned())
}

fn object(members: Vec<(&str, JsonValue)>) -> JsonValue {
    JsonValue::Object(members.into_iter().map(|(k, v)| (k.to_owned(), v)).collect())
}

fn render(v: &JsonValue) -> String {
    match v {
        JsonValue::Null => "null".to_owned(),
        JsonValue::Bool(b) => b.to_string(),
        JsonValue::Number(n) => n.clone(),
        JsonValue::Str(t) => format!("\"{t}\""),
        JsonValue::Array(items) => format!("[{}]", items.iter().map(render).collect::<Vec<_>>().join(",")),
        JsonValue::Object(ms) => format!(
            "{{{}}}",
            ms.iter().map(|(k, v)| format!("\"{k}\":{}", render(v))).collect::<Vec<_>>().join(",")
        ),
    }
}

fn shown(call: &WsCall) -> String {
    format!("{}/{} {}", call.domain, call.action, render(&call.payload))
}

#[test]
fn report_calls() {
    let run = run_report_call(s("ZR"), s(" "), Some(object(vec![("p", JsonValue::Number("1".into()))])), "RunReport");
    assert_eq!(shown(&run.unwrap()), "report/runReport {\"report\":\"ZR\",\"params\":{\"p\":1}}");
    let with_variant = run_report_call(s("ZR"), s("V1"), None, "RunReport").unwrap();
    assert_eq!(shown(&with_variant), "report/runReport {\"report\":\"ZR\",\"variant\":\"V1\"}");
    assert!(refused_with(run_report_call(None, None, None, "RunReport"), "report is required"));

    assert_eq!(shown(&variants_call(s("ZR"), "GetVariants").unwrap()), "report/getVariants {\"report\":\"ZR\"}");
    assert_eq!(
        shown(&text_elements_call(s("ZP"), s("DE"), "GetTextElements").unwrap()),
        "report/getTextElements {\"program\":\"ZP\",\"language\":\"DE\"}"
    );
    assert!(refused_with(text_elements_call(None, None, "GetTextElements"), "program is required"));
    let set = set_text_elements_call(s("ZP"), None, Some(JsonValue::Array(vec![])), None, Some(text("h")), "SetTextElements");
    assert_eq!(
        shown(&set.unwrap()),
        "report/setTextElements {\"program\":\"ZP\",\"selection_texts\":[],\"heading_texts\":\"h\"}"
    );
}

#[test]
fn debugger_calls() {
    assert_eq!(shown(&plain_call(PlainCall::DebuggerGetStack)), "debug/getStack {}");
    assert_eq!(shown(&plain_call(PlainCall::AmdpStop)), "amdp/stop {}");
    assert_eq!(shown(&plain_call(PlainCall::GetBreakpoints)), "debug/getBreakpoints {}");
    assert_eq!(
        shown(&delete_breakpoint_call(s("B1"), "DeleteBreakpoint").unwrap()),
        "debug/deleteBreakpoint {\"breakpointId\":\"B1\"}"
    );
    assert!(refused_with(delete_breakpoint_call(None, "DeleteBreakpoint"), "breakpoint_id is required"));
    assert_eq!(shown(&debugger_attach_call(s("D"), "DebuggerAttach").unwrap()), "debug/attach {\"debuggeeId\":\"D\"}");
    assert!(refused_with(debugger_attach_call(None, "DebuggerAttach"), "debuggee_id is required"));
    assert_eq!(shown(&step_call(StepDomain::Debugger, None)), "debug/step {\"type\":\"into\"}");
    assert_eq!(shown(&step_call(StepDomain::Amdp, None)), "amdp/step {\"type\":\"over\"}");
    assert_eq!(shown(&step_call(StepDomain::Amdp, s("out"))), "amdp/step {\"type\":\"out\"}");
    assert_eq!(shown(&debugger_variables_call(None)), "debug/getVariables {\"scope\":\"system\"}");
}

#[test]
fn listen_timeout_is_clamped_and_user_added() {
    assert_eq!(shown(&debugger_listen_call(Some(500), s(" dev "))), "debug/listen {\"timeout\":240,\"user\":\"DEV\"}");
    assert_eq!(shown(&debugger_listen_call(None, None)), "debug/listen {\"timeout\":60}");
    assert_eq!(shown(&debugger_listen_call(Some(0), s("  "))), "debug/listen {\"timeout\":1}");
    assert_eq!(shown(&amdp_start_call(None, s(" "))), "amdp/start {\"cascadeMode\":\"FULL\"}");
    assert_eq!(shown(&amdp_start_call(s("NONE"), s("u"))), "amdp/start {\"cascadeMode\":\"NONE\",\"user\":\"U\"}");
}

#[test]
fn breakpoints_need_their_arguments() {
    assert_eq!(
        shown(&amdp_breakpoint_call(s("ZP"), Some(12), "AMDPSetBreakpoint").unwrap()),
        "amdp/setBreakpoint {\"program\":\"ZP\",\"line\":12}"
    );
    assert!(refused_with(amdp_breakpoint_call(None, Some(1), "AMDPSetBreakpoint"), "program is required"));
    assert!(refused_with(amdp_breakpoint_call(s("ZP"), None, "AMDPSetBreakpoint"), "line is required"));
    let set = set_breakpoint_call(object(vec![("line", JsonValue::Number("3".into()))]), "SetBreakpoint");
    assert_eq!(shown(&set.unwrap()), "debug/setBreakpoint {\"line\":3}");
    assert!(refused_with(set_breakpoint_call(JsonValue::Null, "SetBreakpoint"), "arguments must be a JSON object"));
}

#[test]
fn rfc_parameters_are_merged_or_wrapped() {
    let parsed = object(vec![("A", JsonValue::Number("1".into()))]);
    let merged = rfc_call(s("F"), Some(text("{\"A\":1}")), Some(parsed), "CallRFC").unwrap();
    assert_eq!(shown(&merged), "rfc/call {\"function\":\"F\",\"A\":1}");
    let wrapped = rfc_call(s("F"), Some(text("x")), None, "CallRFC").unwrap();
    assert_eq!(shown(&wrapped), "rfc/call {\"function\":\"F\",\"params\":\"x\"}");
    let listed = rfc_call(s("F"), Some(JsonValue::Array(vec![JsonValue::Bool(true)])), None, "CallRFC").unwrap();
    assert_eq!(shown(&listed), "rfc/call {\"function\":\"F\",\"params\":[true]}");
    assert_eq!(shown(&rfc_call(s("F"), None, None, "CallRFC").unwrap()), "rfc/call {\"function\":\"F\"}");
    assert!(refused_with(rfc_call(None, None, None, "CallRFC"), "function is required"));
}

#[test]
fn move_and_git_calls() {
    assert_eq!(
        shown(&move_object_call(s("CLAS"), s("ZCL"), s("ZP"), "MoveObject").unwrap()),
        "rfc/moveToPackage {\"object\":\"CLAS\",\"obj_name\":\"ZCL\",\"new_package\":\"ZP\"}"
    );
    assert!(refused_with(move_object_call(None, s("a"), s("b"), "MoveObject"), "object_type is required"));
    assert!(refused_with(move_object_call(s("a"), None, s("b"), "MoveObject"), "object_name is required"));
    assert!(refused_with(move_object_call(s("a"), s("b"), None, "MoveObject"), "new_package is required"));
    assert_eq!(shown(&git_types_call()), "git/getTypes {}");

    let packages = git_export_call(s(" a, ,b "), None, Err("unused".to_owned()), None, "GitExport").unwrap();
    assert_eq!(shown(&packages), "git/export {\"packages\":[\"a\",\"b\"],\"includeSubpackages\":true}");
    let objects = git_export_call(
        None,
        s("[1]"),
        Ok(JsonValue::Array(vec![JsonValue::Number("1".into())])),
        Some(false),
        "GitExport",
    )
    .unwrap();
    assert_eq!(shown(&objects), "git/export {\"objects\":[1],\"includeSubpackages\":false}");
    assert!(refused_with(
        git_export_call(s(" , "), None, Err(String::new()), None, "GitExport"),
        "either packages or objects parameter is required"
    ));
    assert!(refused_with(
        git_export_call(None, s("{"), Err("EOF".to_owned()), None, "GitExport"),
        "invalid objects JSON: EOF"
    ));
}

#[test]
fn background_jobs_are_tracked_by_name_and_count() {
    let reply = object(vec![("jobName", text("J")), ("jobcount", text("7")), ("report", text("ZR"))]);
    assert_eq!(
        started_job_of(&reply, "RunReportAsync").unwrap(),
        ("J".to_owned(), "7".to_owned(), "ZR".to_owned())
    );
    let no_report = object(vec![("job_name", text("J")), ("job_count", text("7"))]);
    assert_eq!(started_job_of(&no_report, "RunReportAsync").unwrap().2, "");
    assert!(refused_with(
        started_job_of(&object(vec![("jobcount", text("7"))]), "RunReportAsync"),
        "runReport response does not contain job name"
    ));
    assert!(refused_with(
        started_job_of(&object(vec![("jobname", text("J"))]), "RunReportAsync"),
        "runReport response does not contain job count"
    ));

    assert_eq!(task_job_of(&no_report, "GetAsyncResult").unwrap(), ("J".to_owned(), "7".to_owned()));
    assert!(refused_with(task_job_of(&object(vec![]), "GetAsyncResult"), "task_id missing job_name"));
    assert!(refused_with(
        task_job_of(&object(vec![("job_name", text("J"))]), "GetAsyncResult"),
        "task_id missing job_count"
    ));
    assert_eq!(
        shown(&job_status_call("J".to_owned(), "7".to_owned())),
        "report/getJobStatus {\"jobname\":\"J\",\"jobcount\":\"7\"}"
    );
    assert_eq!(shown(&spool_call("S1".to_owned())), "report/getSpoolOutput {\"spool_id\":\"S1\"}");
}

#[test]
fn task_ids_are_base64_of_the_task() {
    assert_eq!(task_id_of("{}"), "e30=");
    assert_eq!(task_id_of("{\"job_name\":\"J\"}"), "eyJqb2JfbmFtZSI6IkoifQ==");
    assert_eq!(task_payload_of(Some("e30=".to_owned()), "GetAsyncResult").unwrap(), b"{}".to_vec());
    assert!(refused_with(task_payload_of(None, "GetAsyncResult"), "task_id is required"));
    assert!(refused_with(
        task_payload_of(Some("@@@@".to_owned()), "GetAsyncResult"),
        "invalid task_id: Invalid symbol 64, offset 0."
    ));
}

#[test]
fn json_copies_are_deep_and_equal() {
    let v = object(vec![
        ("a", JsonValue::Array(vec![JsonValue::Null, text("x"), JsonValue::Bool(false)])),
        ("n", JsonValue::Number("1.5".into())),
    ]);
    let copy = neuro_runtime::json::json_clone(&v);
    assert_eq!(render(&copy), "{\"a\":[null,\"x\",false],\"n\":1.5}");
    assert_eq!(render(&v.clone()), render(&v));
}
