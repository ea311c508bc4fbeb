use neuro_runtime::errors::NeuroMcpError;
use neuro_runtime::json::JsonValue;
use neuro_runtime::mcp::classtests::{ClassTestsStep, CreateClassWithTestsArgs, CreateClassWithTestsFlow};
use neuro_runtime::mcp::clone::{
    CloneObjectArgs, CloneObjectFlow, CloneStep, RenameObjectArgs, RenameObjectFlow, RenameStep,
};
use neuro_runtime::mcp::execabap::{Cleanup, ExecStep, ExecuteAbapArgs, ExecuteAbapFlow};
use neuro_runtime::mcp::flow::{FlowAction, FlowEvent};
use neuro_runtime::mcp::table::{CreateTableArgs, CreateTableFlow, TableStep};

fn s(text: &str) -> Option<String> {
    Some(text.to_owned())
}

fn lock_result(handle: &str) -> JsonValue {
    JsonValue::Object(vec![("lockHandle".to_string(), JsonValue::Str(handle.to_string()))])
}

fn raw(text: &str) -> JsonValue {
    JsonValue::Object(vec![("raw".to_string(), JsonValue::Str(text.to_string()))])
}

fn refusal<T: std::fmt::Debug>(result: Result<T, NeuroMcpError>) -> String {
    match result {
        Err(NeuroMcpError::InvalidArguments { message, .. }) => message,
        other => panic!("expected a refusal, got {other:?}"),
    }
}

fn clone_next(step: CloneStep) -> (CloneObjectFlow, FlowAction) {
    match step {
        CloneStep::Next(flow, action) => (flow, action),
        CloneStep::Finish(result) => panic!("copy ended early: {result:?}"),
    }
}

fn clone_args(object_type: &str) -> CloneObjectArgs {
    CloneObjectArgs {
        object_type: s(object_type),
        source_name: s(" zsrc "),
        target_name: s("zdst"),
        package: s("ztmp"),
    }
}

#[test]
fn clone_object_copies_renames_and_activates() {
    let (flow, action) = clone_next(CloneObjectFlow::start(clone_args("PROG"), "CloneObject"));
    assert!(matches!(
        action,
        FlowAction::ReadText { ref uri, ref accept }
            if uri == "/sap/bc/adt/programs/programs/ZSRC/source/main" && accept == "text/plain"
    ));
    let (flow, action) = clone_next(flow.resume(FlowEvent::Text("report zsrc.\nWRITE 'zsrc'.".to_owned())));
    match action {
        FlowAction::CreateObject(args) => {
            assert_eq!(args.object_type.as_deref(), Some("PROG/P"));
            assert_eq!(args.name.as_deref(), Some("ZDST"));
            assert_eq!(args.description.as_deref(), Some("Copy of ZSRC"));
            assert_eq!(args.package_name.as_deref(), Some("ZTMP"));
            assert_eq!(args.transport, None);
        }
        other => panic!("expected a creation, got {other:?}"),
    }
    let (flow, action) = clone_next(flow.resume(FlowEvent::Value(JsonValue::Null)));
    assert!(matches!(action, FlowAction::Lock { ref object_url } if object_url == "/sap/bc/adt/programs/programs/ZDST"));
    let (flow, action) = clone_next(flow.resume(FlowEvent::Value(lock_result("H1"))));
    assert!(matches!(
        action,
        FlowAction::WriteSource { ref uri, ref source, ref lock_handle, ref transport }
            if uri == "/sap/bc/adt/programs/programs/ZDST/source/main"
                && source == "report ZDST.\nWRITE 'zsrc'."
                && lock_handle == "H1"
                && transport.is_none()
    ));
    let (flow, action) = clone_next(flow.resume(FlowEvent::Text(String::new())));
    assert!(matches!(action, FlowAction::Unlock { ref lock_handle, .. } if lock_handle == "H1"));
    let (flow, action) = clone_next(flow.resume(FlowEvent::Value(JsonValue::Null)));
    assert!(matches!(action, FlowAction::Activate { ref object_name, .. } if object_name == "ZDST"));
    match flow.resume(FlowEvent::Value(JsonValue::Null)) {
        CloneStep::Finish(Ok(outcome)) => {
            assert_eq!(outcome.source_name, "ZSRC");
            assert_eq!(outcome.target_name, "ZDST");
            assert_eq!(outcome.object_type, "PROG");
            assert_eq!(outcome.package, "ztmp");
        }
        other => panic!("expected the copy to finish, got {other:?}"),
    }
}

#[test]
fn clone_object_refusals() {
    let finish = |step: CloneStep| match step {
        CloneStep::Finish(result) => result,
        CloneStep::Next(_, action) => panic!("expected a refusal, got {action:?}"),
    };
    let mut missing = clone_args("PROG");
    missing.package = None;
    assert_eq!(refusal(finish(CloneObjectFlow::start(missing, "CloneObject"))), "package is required");
    assert_eq!(
        refusal(finish(CloneObjectFlow::start(clone_args("XSLT"), "CloneObject"))),
        "unsupported object_type `XSLT`"
    );
    let (flow, _) = clone_next(CloneObjectFlow::start(clone_args("PROG/I"), "CloneObject"));
    assert_eq!(
        refusal(finish(flow.resume(FlowEvent::Text("x".to_owned())))),
        "CloneObject currently supports PROG, CLAS, INTF"
    );
    let (flow, _) = clone_next(CloneObjectFlow::start(clone_args("CLAS"), "CloneObject"));
    let (flow, _) = clone_next(flow.resume(FlowEvent::Text("CLASS zsrc DEFINITION.".to_owned())));
    let (flow, _) = clone_next(flow.resume(FlowEvent::Value(JsonValue::Null)));
    assert_eq!(
        refusal(finish(flow.resume(FlowEvent::Value(JsonValue::Null)))),
        "LockObject did not return lockHandle"
    );
}

#[test]
fn rename_copies_then_deletes_the_old_object() {
    let args = RenameObjectArgs {
        obj_type: s("CLAS"),
        old_name: s("zcl_old"),
        new_name: s("zcl_new"),
        package_name: s("ZTMP"),
        transport: s("K1"),
    };
    let (flow, action) = match RenameObjectFlow::start(args, "RenameObject") {
        RenameStep::Next(flow, action) => (flow, action),
        RenameStep::Finish(result) => panic!("rename ended early: {result:?}"),
    };
    assert!(matches!(
        action,
        FlowAction::CloneObject { ref object_type, ref source_name, ref target_name, ref package }
            if object_type == "CLAS" && source_name == "zcl_old" && target_name == "zcl_new" && package == "ZTMP"
    ));
    let (flow, action) = match flow.resume(FlowEvent::Value(raw("copied"))) {
        RenameStep::Next(flow, action) => (flow, action),
        RenameStep::Finish(result) => panic!("rename ended early: {result:?}"),
    };
    assert!(matches!(action, FlowAction::Lock { ref object_url } if object_url == "/sap/bc/adt/oo/classes/ZCL_OLD"));
    let (flow, action) = match flow.resume(FlowEvent::Value(lock_result("H"))) {
        RenameStep::Next(flow, action) => (flow, action),
        RenameStep::Finish(result) => panic!("rename ended early: {result:?}"),
    };
    assert!(matches!(
        action,
        FlowAction::DeleteObject { ref object_url, ref lock_handle, ref transport }
            if object_url == "/sap/bc/adt/oo/classes/ZCL_OLD" && lock_handle == "H" && transport.as_deref() == Some("K1")
    ));
    assert!(matches!(flow.resume(FlowEvent::Value(JsonValue::Null)), RenameStep::Finish(Ok(_))));

    let missing = RenameObjectArgs { obj_type: s("CLAS"), old_name: None, new_name: None, package_name: None, transport: None };
    match RenameObjectFlow::start(missing, "RenameObject") {
        RenameStep::Finish(result) => assert_eq!(refusal(result), "oldName is required"),
        RenameStep::Next(_, action) => panic!("expected a refusal, got {action:?}"),
    }
}

fn class_next(step: ClassTestsStep) -> (CreateClassWithTestsFlow, FlowAction) {
    match step {
        ClassTestsStep::Next(flow, action) => (flow, action),
        ClassTestsStep::Finish(result) => panic!("creation ended early: {result:?}"),
    }
}

#[test]
fn class_with_tests_writes_both_sections_under_one_lock() {
    let args = CreateClassWithTestsArgs {
        class_name: s(" zcl_a "),
        description: s("d"),
        package_name: s("ztmp"),
        class_source: s("CLASS zcl_a DEFINITION."),
        test_source: s("CLASS ltc DEFINITION FOR TESTING."),
        transport: s("K1"),
    };
    let (flow, action) = class_next(CreateClassWithTestsFlow::start(args, "CreateClassWithTests"));
    match action {
        FlowAction::CreateObject(a) => {
            assert_eq!(a.object_type.as_deref(), Some("CLAS/OC"));
            assert_eq!(a.name.as_deref(), Some("ZCL_A"));
            assert_eq!(a.package_name.as_deref(), Some("ZTMP"));
            assert_eq!(a.transport.as_deref(), Some("K1"));
        }
        other => panic!("expected a creation, got {other:?}"),
    }
    let (flow, action) = class_next(flow.resume(FlowEvent::Value(JsonValue::Null)));
    assert!(matches!(action, FlowAction::Lock { ref object_url } if object_url == "/sap/bc/adt/oo/classes/ZCL_A"));
    let (flow, action) = class_next(flow.resume(FlowEvent::Value(lock_result("H"))));
    assert!(matches!(
        action,
        FlowAction::WriteSource { ref uri, ref source, ref transport, .. }
            if uri == "/sap/bc/adt/oo/classes/ZCL_A/source/main"
                && source == "CLASS zcl_a DEFINITION."
                && transport.as_deref() == Some("K1")
    ));
    let (flow, action) = class_next(flow.resume(FlowEvent::Text(String::new())));
    assert!(matches!(
        action,
        FlowAction::CreateTestInclude { ref class_name, ref lock_handle, ref transport }
            if class_name == "ZCL_A" && lock_handle == "H" && transport == "K1"
    ));
    let (flow, action) = class_next(flow.resume(FlowEvent::Value(JsonValue::Null)));
    assert!(matches!(
        action,
        FlowAction::UpdateClassInclude { ref include_type, ref source, .. }
            if include_type == "testclasses" && source == "CLASS ltc DEFINITION FOR TESTING."
    ));
    let (flow, action) = class_next(flow.resume(FlowEvent::Value(JsonValue::Null)));
    assert!(matches!(action, FlowAction::Unlock { ref lock_handle, .. } if lock_handle == "H"));
    let (flow, action) = class_next(flow.resume(FlowEvent::Value(JsonValue::Null)));
    assert!(matches!(action, FlowAction::Activate { ref object_name, .. } if object_name == "ZCL_A"));
    let (flow, action) = class_next(flow.resume(FlowEvent::Value(raw("activated"))));
    assert!(matches!(action, FlowAction::RunUnitTests { ref object_url } if object_url == "/sap/bc/adt/oo/classes/ZCL_A"));
    let failure = NeuroMcpError::InvalidArguments { tool: "RunUnitTests".to_owned(), message: "no tests".to_owned() };
    match flow.resume(FlowEvent::Failed(failure)) {
        ClassTestsStep::Finish(Ok(outcome)) => {
            assert_eq!(outcome.class_name, "ZCL_A");
            assert_eq!(outcome.object_url, "/sap/bc/adt/oo/classes/ZCL_A");
            assert!(matches!(outcome.unit_tests, Err(ref m) if m == "invalid arguments for `RunUnitTests`: no tests"));
        }
        other => panic!("a failed test run still finishes the creation, got {other:?}"),
    }
}

fn exec_next(step: ExecStep) -> (ExecuteAbapFlow, FlowAction) {
    match step {
        ExecStep::Next(flow, action) => (flow, action),
        ExecStep::Finish(result) => panic!("run ended early: {result:?}"),
    }
}

#[test]
fn execute_abap_runs_a_temporary_test_program() {
    let args = ExecuteAbapArgs {
        code: s("lv_result = 'x'."),
        risk_level: None,
        return_variable: None,
        keep_program: None,
        program_prefix: None,
    };
    let (flow, action) = exec_next(ExecuteAbapFlow::start(args, "ExecuteABAP", 42));
    match action {
        FlowAction::CreateAndActivateProgram { program_name, description, package_name, source } => {
            assert_eq!(program_name, "ZTEMP_EXEC_00000042");
            assert_eq!(description, "Temp program for ExecuteABAP");
            assert_eq!(package_name, "$TMP");
            assert_eq!(
                source,
                "REPORT ZTEMP_EXEC_00000042.\n\nCLASS ltc_executor DEFINITION FOR TESTING RISK LEVEL HARMLESS DURATION SHORT.\n  PUBLIC SECTION.\n    METHODS execute_payload FOR TESTING.\nENDCLASS.\n\nCLASS ltc_executor IMPLEMENTATION.\n  METHOD execute_payload.\n    DATA lv_result TYPE string.\n    lv_result = 'x'.\n    cl_abap_unit_assert=>fail( msg = |EXEC_RESULT:{ lv_result }| ).\n  ENDMETHOD.\nENDCLASS.\n"
            );
        }
        other => panic!("expected the program, got {other:?}"),
    }
    let (flow, action) = exec_next(flow.resume(FlowEvent::Value(raw("created"))));
    assert!(matches!(
        action,
        FlowAction::RunUnitTests { ref object_url } if object_url == "/sap/bc/adt/programs/programs/ZTEMP_EXEC_00000042"
    ));
    let report = raw("<alert>EXEC_RESULT: 42 </alert><alert>EXEC_RESULT:7\n</alert>");
    let (flow, action) = exec_next(flow.resume(FlowEvent::Value(report)));
    assert!(matches!(action, FlowAction::Lock { .. }));
    let (flow, action) = exec_next(flow.resume(FlowEvent::Value(lock_result("H"))));
    assert!(matches!(
        action,
        FlowAction::DeleteObject { ref lock_handle, ref transport, .. } if lock_handle == "H" && transport.is_none()
    ));
    match flow.resume(FlowEvent::Value(JsonValue::Null)) {
        ExecStep::Finish(Ok(outcome)) => {
            assert_eq!(outcome.program_name, "ZTEMP_EXEC_00000042");
            assert_eq!(outcome.output, vec!["42".to_owned(), "7".to_owned()]);
            assert!(matches!(outcome.cleanup, Cleanup::Deleted(JsonValue::Null)));
            assert_eq!(outcome.message, "Executed successfully");
        }
        other => panic!("expected the run to finish, got {other:?}"),
    }
}

#[test]
fn execute_abap_options_and_cleanup_failures() {
    let args = ExecuteAbapArgs {
        code: s("WRITE 1."),
        risk_level: s("Dangerous"),
        return_variable: s("lv_out"),
        keep_program: Some(true),
        program_prefix: s("zx_"),
    };
    let (flow, action) = exec_next(ExecuteAbapFlow::start(args, "ExecuteABAP", 1_234_567_890_123));
    match action {
        FlowAction::CreateAndActivateProgram { program_name, source, .. } => {
            assert_eq!(program_name, "ZX_67890123");
            assert!(source.contains("FOR TESTING RISK LEVEL DANGEROUS DURATION SHORT"));
            assert!(source.contains("DATA lv_out TYPE string."));
        }
        other => panic!("expected the program, got {other:?}"),
    }
    let (flow, _) = exec_next(flow.resume(FlowEvent::Value(JsonValue::Null)));
    match flow.resume(FlowEvent::Value(raw("no results"))) {
        ExecStep::Finish(Ok(outcome)) => {
            assert!(outcome.output.is_empty());
            assert!(matches!(outcome.cleanup, Cleanup::Skipped));
            assert_eq!(outcome.message, "Executed successfully (no EXEC_RESULT output captured)");
        }
        other => panic!("a kept program ends the run, got {other:?}"),
    }

    let args = ExecuteAbapArgs { code: s("x"), risk_level: None, return_variable: None, keep_program: None, program_prefix: None };
    let (flow, _) = exec_next(ExecuteAbapFlow::start(args, "ExecuteABAP", 7));
    let (flow, _) = exec_next(flow.resume(FlowEvent::Value(JsonValue::Null)));
    let (flow, _) = exec_next(flow.resume(FlowEvent::Value(raw(""))));
    match flow.resume(FlowEvent::Value(JsonValue::Null)) {
        ExecStep::Finish(Ok(outcome)) => {
            assert!(matches!(outcome.cleanup, Cleanup::Failed(ref m) if m == "missing lockHandle"));
        }
        other => panic!("a missing lock handle ends the run, got {other:?}"),
    }

    let missing = ExecuteAbapArgs { code: None, risk_level: None, return_variable: None, keep_program: None, program_prefix: None };
    match ExecuteAbapFlow::start(missing, "ExecuteABAP", 0) {
        ExecStep::Finish(result) => assert_eq!(refusal(result), "code is required"),
        ExecStep::Next(_, action) => panic!("expected a refusal, got {action:?}"),
    }
}

fn table_next(step: TableStep) -> (CreateTableFlow, FlowAction) {
    match step {
        TableStep::Next(flow, action) => (flow, action),
        TableStep::Finish(result) => panic!("creation ended early: {result:?}"),
    }
}

#[test]
fn create_table_announces_writes_and_activates() {
    let args = CreateTableArgs {
        name: s(" zt_demo "),
        description: s("Demo's table"),
        package: None,
        delivery_class: None,
        fields: Some(JsonValue::Str("client:abap.clnt:key; matnr : abap.char(18) : notnull ; bad".to_owned())),
        transport: None,
    };
    let (flow, action) = table_next(CreateTableFlow::start(args, Err(String::new()), "CreateTable"));
    assert_eq!(flow.field_count, 2);
    assert_eq!(
        flow.ddl,
        "@EndUserText.label : 'Demo''s table'\n@AbapCatalog.tableCategory : #TRANSPARENT\n@AbapCatalog.deliveryClass : #A\n@AbapCatalog.dataMaintenance : #ALLOWED\ndefine table ZT_DEMO {\n  key client : abap.clnt not null;\n  matnr : abap.char(18) not null;\n}\n"
    );
    assert!(matches!(
        action,
        FlowAction::PostText { ref uri, ref body, ref content_type, ref accept }
            if uri == "/sap/bc/adt/ddic/tables"
                && body.as_deref() == Some("<?xml version=\"1.0\" encoding=\"UTF-8\"?>\n<blue:blueSource xmlns:blue=\"http://www.sap.com/wbobj/blue\"\n                 xmlns:adtcore=\"http://www.sap.com/adt/core\"\n                 adtcore:name=\"ZT_DEMO\"\n                 adtcore:type=\"TABL/DT\"\n                 adtcore:description=\"Demo&apos;s table\">\n  <adtcore:packageRef adtcore:name=\"$TMP\"/>\n</blue:blueSource>")
                && content_type.as_deref() == Some("application/vnd.sap.adt.tables.v2+xml")
                && accept.as_deref() == Some("application/vnd.sap.adt.tables.v2+xml")
    ));
    let (flow, action) = table_next(flow.resume(FlowEvent::Text(String::new())));
    assert!(matches!(action, FlowAction::Lock { ref object_url } if object_url == "/sap/bc/adt/ddic/tables/zt_demo"));
    let (flow, action) = table_next(flow.resume(FlowEvent::Value(lock_result("H"))));
    assert!(matches!(
        action,
        FlowAction::WriteSource { ref uri, ref lock_handle, .. }
            if uri == "/sap/bc/adt/ddic/tables/zt_demo/source/main" && lock_handle == "H"
    ));
    let (flow, action) = table_next(flow.resume(FlowEvent::Text(String::new())));
    assert!(matches!(action, FlowAction::Unlock { .. }));
    let (flow, action) = table_next(flow.resume(FlowEvent::Value(JsonValue::Null)));
    assert!(matches!(action, FlowAction::Activate { ref object_name, .. } if object_name == "ZT_DEMO"));
    match flow.resume(FlowEvent::Value(JsonValue::Null)) {
        TableStep::Finish(Ok(outcome)) => {
            assert_eq!(outcome.table, "ZT_DEMO");
            assert_eq!(outcome.package, "$TMP");
            assert_eq!(outcome.field_count, 2);
        }
        other => panic!("expected the creation to finish, got {other:?}"),
    }

    let no_fields = CreateTableArgs { name: s("ZT"), description: s("d"), ..Default::default() };
    match CreateTableFlow::start(no_fields, Err(String::new()), "CreateTable") {
        TableStep::Finish(result) => assert_eq!(refusal(result), "at least one field is required"),
        TableStep::Next(_, action) => panic!("expected a refusal, got {action:?}"),
    }
}
