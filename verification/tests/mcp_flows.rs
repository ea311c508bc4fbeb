use neuro_runtime::errors::NeuroMcpError;
use neuro_runtime::json::JsonValue;
use neuro_runtime::mcp::atc::{AtcStage, AtcStep, RunAtcCheckArgs, RunAtcCheckFlow};
use neuro_runtime::mcp::deploy::{DeployFromFileArgs, DeployFromFileFlow, DeployStep};
use neuro_runtime::mcp::edit::{EditOutcome, EditSourceArgs, EditSourceFlow, EditStep};
use neuro_runtime::mcp::flow::{
    object_name_of, owning_object, raw_text, source_url_of, take_lock_handle, FlowAction,
    FlowEvent,
};
use neuro_runtime::mcp::program::{
    CreateAndActivateProgramArgs, CreateProgramFlow, ProgramStep,
};

fn lock_result(handle: &str) -> JsonValue {
    JsonValue::Object(vec![("lockHandle".to_string(), JsonValue::Str(handle.to_string()))])
}

fn raw(text: &str) -> JsonValue {
    JsonValue::Object(vec![("raw".to_string(), JsonValue::Str(text.to_string()))])
}

fn edit_args(old: &str, new: &str) -> EditSourceArgs {
    EditSourceArgs {
        object_url: Some("/sap/bc/adt/oo/classes/ZCL_A/includes/testclasses".to_string()),
        old_string: Some(old.to_string()),
        new_string: Some(new.to_string()),
        replace_all: None,
        case_insensitive: None,
        syntax_check: None,
        transport: Some("K900001".to_string()),
    }
}

fn edit_next(step: EditStep) -> (EditSourceFlow, FlowAction) {
    match step {
        EditStep::Next(flow, action) => (flow, action),
        EditStep::Finish(result) => panic!("edit ended early: {result:?}"),
    }
}

#[test]
fn flow_helpers() {
    assert_eq!(
        source_url_of("/sap/bc/adt/programs/programs/zp"),
        "/sap/bc/adt/programs/programs/zp/source/main"
    );
    assert_eq!(
        source_url_of("/sap/bc/adt/oo/classes/ZCL_A/includes/testclasses"),
        "/sap/bc/adt/oo/classes/ZCL_A/includes/testclasses"
    );
    assert_eq!(
        owning_object("/sap/bc/adt/oo/classes/ZCL_A/includes/testclasses"),
        "/sap/bc/adt/oo/classes/ZCL_A"
    );
    assert_eq!(object_name_of("/sap/bc/adt/oo/classes/zcl_a"), "ZCL_A");
    assert_eq!(raw_text(&raw("abc")), "abc");
    assert_eq!(raw_text(&JsonValue::Null), "");
    assert_eq!(take_lock_handle(&lock_result("H1"), "T").expect("handle"), "H1");
    assert!(matches!(
        take_lock_handle(&JsonValue::Null, "T"),
        Err(NeuroMcpError::InvalidArguments { ref message, .. }) if message == "LockObject did not return lockHandle"
    ));
}

#[test]
fn edit_source_runs_check_lock_write_unlock_activate() {
    let (flow, action) = edit_next(EditSourceFlow::start(edit_args("WRITE 'a'.", "WRITE 'b'."), "EditSource"));
    assert!(matches!(
        action,
        FlowAction::ReadText { ref uri, ref accept }
            if uri == "/sap/bc/adt/oo/classes/ZCL_A/includes/testclasses" && accept == "text/plain"
    ));

    let (flow, action) = edit_next(flow.resume(FlowEvent::Text("REPORT z.\nWRITE 'a'.\n".to_string())));
    assert!(matches!(
        action,
        FlowAction::SyntaxCheck { ref content, .. } if content == "REPORT z.\nWRITE 'b'.\n"
    ));

    let (flow, action) = edit_next(flow.resume(FlowEvent::Value(raw("<ok/>"))));
    assert!(matches!(
        action,
        FlowAction::Lock { ref object_url } if object_url == "/sap/bc/adt/oo/classes/ZCL_A"
    ));

    let (flow, action) = edit_next(flow.resume(FlowEvent::Value(lock_result("H1"))));
    assert!(matches!(
        action,
        FlowAction::WriteSource { ref source, ref lock_handle, ref transport, .. }
            if source == "REPORT z.\nWRITE 'b'.\n" && lock_handle == "H1" && transport.as_deref() == Some("K900001")
    ));

    let (flow, action) = edit_next(flow.resume(FlowEvent::Text(String::new())));
    assert!(matches!(
        action,
        FlowAction::Unlock { ref lock_handle, .. } if lock_handle == "H1"
    ));

    let (flow, action) = edit_next(flow.resume(FlowEvent::Value(JsonValue::Null)));
    assert!(matches!(
        action,
        FlowAction::Activate { ref object_name, .. } if object_name == "ZCL_A"
    ));

    match flow.resume(FlowEvent::Value(JsonValue::Bool(true))) {
        EditStep::Finish(Ok(EditOutcome::Edited { count, message, .. })) => {
            assert_eq!(count, 1);
            assert_eq!(message, "Successfully edited source");
        }
        other => panic!("unexpected end: {other:?}"),
    }
}

#[test]
fn edit_source_stops_before_writing() {
    let (flow, _) = edit_next(EditSourceFlow::start(edit_args("missing", "x"), "EditSource"));
    assert!(matches!(
        flow.resume(FlowEvent::Text("abc".to_string())),
        EditStep::Finish(Ok(EditOutcome::NotFound))
    ));

    let (flow, _) = edit_next(EditSourceFlow::start(edit_args("a", "x"), "EditSource"));
    assert!(matches!(
        flow.resume(FlowEvent::Text("a a a".to_string())),
        EditStep::Finish(Ok(EditOutcome::Ambiguous { count: 3 }))
    ));

    let (flow, _) = edit_next(EditSourceFlow::start(edit_args("a", "x"), "EditSource"));
    let (flow, _) = edit_next(flow.resume(FlowEvent::Text("a".to_string())));
    assert!(matches!(
        flow.resume(FlowEvent::Value(raw("<msg severity=\"E\"/>"))),
        EditStep::Finish(Ok(EditOutcome::SyntaxErrors { count: 1, .. }))
    ));

    let mut missing = edit_args("a", "b");
    missing.new_string = None;
    assert!(matches!(
        EditSourceFlow::start(missing, "EditSource"),
        EditStep::Finish(Err(NeuroMcpError::InvalidArguments { ref message, .. })) if message == "new_string is required"
    ));
}

#[test]
fn edit_source_replaces_every_literal_match_when_asked() {
    let mut args = edit_args("a.b", "$1");
    args.replace_all = Some(true);
    args.syntax_check = Some(false);
    let (flow, _) = edit_next(EditSourceFlow::start(args, "EditSource"));
    let (flow, action) = edit_next(flow.resume(FlowEvent::Text("a.b axb a.b".to_string())));
    assert!(matches!(action, FlowAction::Lock { .. }));
    let (_, action) = edit_next(flow.resume(FlowEvent::Value(lock_result("H"))));
    assert!(matches!(
        action,
        FlowAction::WriteSource { ref source, .. } if source == " axb "
    ));
}

#[test]
fn edit_source_passes_on_a_failed_step() {
    let (flow, _) = edit_next(EditSourceFlow::start(edit_args("a", "b"), "EditSource"));
    assert!(matches!(
        flow.resume(FlowEvent::Failed(NeuroMcpError::UnknownTool("x".to_string()))),
        EditStep::Finish(Err(NeuroMcpError::UnknownTool(_)))
    ));
}

#[test]
fn create_program_flow() {
    let refused = CreateProgramFlow::start(
        CreateAndActivateProgramArgs {
            program_name: Some("zp".to_string()),
            description: None,
            package_name: Some("$tmp".to_string()),
            source: Some("REPORT zp.".to_string()),
            transport: None,
        },
        "CreateAndActivateProgram",
    );
    assert!(matches!(
        refused,
        ProgramStep::Finish(Err(NeuroMcpError::InvalidArguments { ref message, .. })) if message == "description is required"
    ));

    let step = CreateProgramFlow::start(
        CreateAndActivateProgramArgs {
            program_name: Some(" zp ".to_string()),
            description: Some("Demo".to_string()),
            package_name: Some("$tmp".to_string()),
            source: Some("REPORT zp.".to_string()),
            transport: None,
        },
        "CreateAndActivateProgram",
    );
    let flow = match step {
        ProgramStep::Next(flow, FlowAction::CreateObject(args)) => {
            assert_eq!(args.object_type.as_deref(), Some("PROG/P"));
            assert_eq!(args.name.as_deref(), Some("ZP"));
            assert_eq!(args.package_name.as_deref(), Some("$TMP"));
            assert_eq!(args.transport, None);
            flow
        }
        _ => panic!("program creation should start"),
    };
    let flow = match flow.resume(FlowEvent::Value(JsonValue::Null)) {
        ProgramStep::Next(flow, FlowAction::Lock { object_url }) => {
            assert_eq!(object_url, "/sap/bc/adt/programs/programs/ZP");
            flow
        }
        _ => panic!("lock expected"),
    };
    assert!(matches!(
        flow.resume(FlowEvent::Value(JsonValue::Null)),
        ProgramStep::Finish(Err(NeuroMcpError::InvalidArguments { ref message, .. })) if message == "LockObject did not return lockHandle"
    ));
}

#[test]
fn deploy_reads_the_file_named_by_its_path() {
    let refused = DeployFromFileFlow::start(
        DeployFromFileArgs { file_path: Some("notes.txt".to_string()), package_name: None, transport: None },
        "DeployFromFile",
    );
    assert!(matches!(
        refused,
        DeployStep::Finish(Err(NeuroMcpError::InvalidArguments { ref message, .. })) if message == "file extension must be .abap"
    ));
    match DeployFromFileFlow::start(
        DeployFromFileArgs {
            file_path: Some("src/zcl_a.clas.abap".to_string()),
            package_name: Some("$TMP".to_string()),
            transport: None,
        },
        "DeployFromFile",
    ) {
        DeployStep::Next(flow, FlowAction::ReadFile { path }) => {
            assert_eq!(path, "src/zcl_a.clas.abap");
            assert_eq!(flow.object_type, "CLAS/OC");
            assert_eq!(flow.object_name, "ZCL_A");
            assert!(!flow.created);
        }
        _ => panic!("file read expected"),
    }
}

#[test]
fn atc_check_reads_the_default_variant_first() {
    match RunAtcCheckFlow::start(
        RunAtcCheckArgs { object_url: Some("/sap/bc/adt/programs/programs/zp".to_string()), variant: None, max_results: Some(0) },
        "RunATCCheck",
    ) {
        AtcStep::Next(flow, FlowAction::ReadText { uri, .. }) => {
            assert_eq!(uri, "/sap/bc/adt/atc/customizing");
            assert_eq!(flow.max_results, 1);
            assert!(matches!(flow.stage, AtcStage::AwaitCustomizing));
        }
        _ => panic!("customizing read expected"),
    }
    match RunAtcCheckFlow::start(
        RunAtcCheckArgs {
            object_url: Some("/sap/bc/adt/programs/programs/zp".to_string()),
            variant: Some(" MY VARIANT ".to_string()),
            max_results: None,
        },
        "RunATCCheck",
    ) {
        AtcStep::Next(flow, FlowAction::PostText { uri, .. }) => {
            assert_eq!(uri, "/sap/bc/adt/atc/worklists?checkVariant=MY+VARIANT");
            assert_eq!(flow.max_results, 100);
        }
        _ => panic!("worklist expected"),
    }
    assert!(matches!(
        RunAtcCheckFlow::start(RunAtcCheckArgs { object_url: None, variant: None, max_results: None }, "RunATCCheck"),
        AtcStep::Finish(Err(NeuroMcpError::InvalidArguments { .. }))
    ));
}
