use neuro_runtime::errors::NeuroMcpError;
use neuro_runtime::mcp::requests::{
    activation_request, class_include_request, delete_request, lock_request, syntax_check_request,
    test_include_request, unit_test_request, unlock_request, write_source_request, HttpMethod,
};

fn refused_with(result: Result<impl std::fmt::Debug, NeuroMcpError>, expected: &str) -> bool {
    matches!(result, Err(NeuroMcpError::InvalidArguments { ref message, .. }) if message == expected)
}

#[test]
fn lock_and_unlock_requests() {
    let lock = lock_request(Some("/sap/bc/adt/programs/programs/ZP".to_string()), None, "LockObject")
        .expect("lock request");
    assert_eq!(lock.method, HttpMethod::Post);
    assert_eq!(lock.path, "/sap/bc/adt/programs/programs/ZP?_action=LOCK&accessMode=MODIFY");
    assert_eq!(lock.body, None);
    assert_eq!(
        lock.accept.as_deref(),
        Some("application/vnd.sap.as+xml;charset=UTF-8;dataname=com.sap.adt.lock.result")
    );
    let read = lock_request(Some("/u".to_string()), Some("READ".to_string()), "LockObject").expect("lock");
    assert_eq!(read.path, "/u?_action=LOCK&accessMode=READ");
    assert!(refused_with(lock_request(None, None, "LockObject"), "objectUrl/object_url is required"));

    let unlock = unlock_request(Some("/u".to_string()), Some("H 1".to_string()), "UnlockObject").expect("unlock");
    assert_eq!(unlock.method, HttpMethod::Post);
    assert_eq!(unlock.path, "/u?_action=UNLOCK&lockHandle=H+1");
    assert!(refused_with(
        unlock_request(Some("/u".to_string()), None, "UnlockObject"),
        "lockHandle/lock_handle is required"
    ));
}

#[test]
fn activation_request_names_the_object() {
    let request = activation_request(Some("/sap/bc/adt/programs/programs/ZP".to_string()), Some("ZP".to_string()), "Activate")
        .expect("activation");
    assert_eq!(request.path, "/sap/bc/adt/activation?method=activate&preauditRequested=true");
    assert_eq!(request.content_type.as_deref(), Some("application/xml"));
    assert_eq!(
        request.body.as_deref(),
        Some("<?xml version=\"1.0\" encoding=\"UTF-8\"?>\n<adtcore:objectReferences xmlns:adtcore=\"http://www.sap.com/adt/core\">\n  <adtcore:objectReference adtcore:uri=\"/sap/bc/adt/programs/programs/ZP\" adtcore:name=\"ZP\"/>\n</adtcore:objectReferences>")
    );
    assert!(refused_with(
        activation_request(Some("/u".to_string()), None, "Activate"),
        "objectName/object_name is required"
    ));
}

#[test]
fn syntax_check_sends_the_source_in_base64() {
    let (request, source_url) =
        syntax_check_request(Some("/x".to_string()), Some("ab".to_string()), "SyntaxCheck").expect("check");
    assert_eq!(source_url, "/x/source/main");
    assert_eq!(request.path, "/sap/bc/adt/checkruns?reporters=abapCheckRun");
    let body = request.body.expect("body");
    assert!(body.contains("<chkrun:content>YWI=</chkrun:content>"));
    assert!(body.contains("adtcore:uri=\"/x/source/main\""));
    let (_, include_url) = syntax_check_request(
        Some("/sap/bc/adt/oo/classes/Z/includes/testclasses".to_string()),
        Some(String::new()),
        "SyntaxCheck",
    )
    .expect("check");
    assert_eq!(include_url, "/sap/bc/adt/oo/classes/Z/includes/testclasses");
    assert!(refused_with(
        syntax_check_request(Some("/x".to_string()), None, "SyntaxCheck"),
        "content is required"
    ));
}

#[test]
fn unit_test_request_flags_and_escaping() {
    let request = unit_test_request(Some("/a&b".to_string()), Some(true), None, "RunUnitTests").expect("tests");
    assert_eq!(request.path, "/sap/bc/adt/abapunit/testruns");
    assert_eq!(request.accept.as_deref(), Some("application/*"));
    let body = request.body.expect("body");
    assert!(body.contains("dangerous=\"true\""));
    assert!(body.contains("long=\"false\""));
    assert!(body.contains("adtcore:uri=\"/a&amp;b\""));
}

#[test]
fn writes_and_deletes_carry_the_lock_and_transport() {
    let write = write_source_request("/u/source/main", "REPORT z.", "H", Some(" K1 "));
    assert_eq!(write.method, HttpMethod::Put);
    assert_eq!(write.path, "/u/source/main?lockHandle=H&corrNr=K1");
    assert_eq!(write.body.as_deref(), Some("REPORT z."));
    assert_eq!(write.content_type.as_deref(), Some("text/plain"));
    let blank = write_source_request("/u", "s", "H", Some("  "));
    assert_eq!(blank.path, "/u?lockHandle=H");

    let delete = delete_request(Some("/u".to_string()), Some("H".to_string()), Some(" K1 ".to_string()), "DeleteObject")
        .expect("delete");
    assert_eq!(delete.method, HttpMethod::Delete);
    assert_eq!(delete.path, "/u?lockHandle=H&corrNr=+K1+");
    assert!(refused_with(
        delete_request(None, Some("H".to_string()), None, "DeleteObject"),
        "objectUrl/object_url is required"
    ));
}

#[test]
fn class_section_requests() {
    let section = test_include_request(Some("zcl_a".to_string()), Some("H".to_string()), None, "CreateTestInclude")
        .expect("test include");
    assert_eq!(section.path, "/sap/bc/adt/oo/classes/ZCL_A/includes?lockHandle=H");
    assert!(section.body.expect("body").contains("class:includeType=\"testclasses\""));

    let (write, base) = class_include_request(
        Some("zcl_a".to_string()),
        Some("TestClasses".to_string()),
        "CLASS ltc DEFINITION.",
        Some("H".to_string()),
        Some("K9".to_string()),
        "UpdateClassInclude",
    )
    .expect("class include");
    assert_eq!(base, "/sap/bc/adt/oo/classes/ZCL_A/includes/testclasses");
    assert_eq!(write.path, "/sap/bc/adt/oo/classes/ZCL_A/includes/testclasses?lockHandle=H&corrNr=K9");
    assert_eq!(write.content_type.as_deref(), Some("text/plain; charset=utf-8"));
    assert!(refused_with(
        class_include_request(Some("z".to_string()), None, "", Some("H".to_string()), None, "UpdateClassInclude"),
        "includeType/include_type is required"
    ));
}

#[test]
fn syntax_check_base64_covers_whole_groups_and_utf8() {
    let cases = [("abc", "YWJj"), ("a", "YQ=="), ("ä", "w6Q="), ("hello!", "aGVsbG8h")];
    for (source, encoded) in cases {
        let (request, _) =
            syntax_check_request(Some("/x".to_string()), Some(source.to_string()), "SyntaxCheck").expect("check");
        let body = request.body.expect("body");
        assert!(body.contains(&format!("<chkrun:content>{encoded}</chkrun:content>")), "{source}");
    }
}
