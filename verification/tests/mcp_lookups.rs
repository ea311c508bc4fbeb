use neuro_runtime::errors::NeuroMcpError;
use neuro_runtime::mcp::lookups::{
    call_graph_plan, call_graph_request, cds_dependencies_request, class_components_request,
    code_completion_request, find_definition_request, find_references_request, fixed_lookup_request,
    function_source_uri, message_class_request, named_lookup_request, object_structure_request,
    package_request, pretty_print_request, pretty_printer_settings_request, table_contents_request,
    CallGraphTool, FixedLookup, NamedLookup,
};
use neuro_runtime::mcp::requests::HttpMethod;
use neuro_runtime::mcp::transports::{
    create_transport_request, list_transports_request, release_transport_request,
    transport_check_request, transport_request, user_transports_request, TransportVerb,
};

fn refused_with<T: std::fmt::Debug>(result: Result<T, NeuroMcpError>, expected: &str) -> bool {
    matches!(result, Err(NeuroMcpError::InvalidArguments { ref message, .. }) if message == expected)
}

fn s(text: &str) -> Option<String> {
    Some(text.to_owned())
}

#[test]
fn fixed_lookups_have_their_paths() {
    let components = fixed_lookup_request(FixedLookup::InstalledComponents);
    assert_eq!(components.method, HttpMethod::Get);
    assert_eq!(components.path, "/sap/bc/adt/system/components");
    assert_eq!(components.accept.as_deref(), Some("application/xml"));
    let settings = fixed_lookup_request(FixedLookup::PrettyPrinterSettings);
    assert_eq!(settings.path, "/sap/bc/adt/abapsource/prettyprinter/settings");
    assert_eq!(settings.accept, None);
    let atc = fixed_lookup_request(FixedLookup::AtcCustomizing);
    assert_eq!(atc.path, "/sap/bc/adt/atc/customizing");
}

#[test]
fn function_source_needs_module_and_group() {
    assert_eq!(
        function_source_uri(s("Z_FM"), s("ZGRP"), "GetFunction").unwrap(),
        "/sap/bc/adt/functions/groups/ZGRP/fmodules/Z_FM/source/main"
    );
    assert!(refused_with(function_source_uri(None, s("G"), "GetFunction"), "function name is required"));
    assert!(refused_with(function_source_uri(s("F"), None, "GetFunction"), "group name is required"));
}

#[test]
fn message_class_and_package_requests() {
    let messages = message_class_request("ZMSG");
    assert_eq!(messages.path, "/sap/bc/adt/messageclass/zmsg");
    assert_eq!(messages.accept.as_deref(), Some("application/vnd.sap.adt.mc.messageclass+xml"));

    let (package, name) = package_request("zpkg");
    assert_eq!(name, "ZPKG");
    assert_eq!(package.method, HttpMethod::Post);
    assert_eq!(
        package.path,
        "/sap/bc/adt/repository/nodestructure?parent_type=DEVC%2FK&parent_name=ZPKG&withShortDescriptions=true"
    );
    assert_eq!(package.body, None);
}

#[test]
fn named_lookups_upper_case_the_name() {
    let (tran, code) = named_lookup_request(NamedLookup::Transaction, "se80");
    assert_eq!(code, "SE80");
    assert_eq!(tran.path, "/sap/bc/adt/vit/wb/object_type/TRAN/object_name/SE80");
    let (element, element_name) = named_lookup_request(NamedLookup::DataElement, "matnr");
    assert_eq!(element_name, "MATNR");
    assert_eq!(element.path, "/sap/bc/adt/ddic/dataelements/MATNR");
    assert_eq!(element.accept.as_deref(), Some("application/xml"));
}

#[test]
fn cds_dependencies_query() {
    let request = cds_dependencies_request("ZI_VIEW");
    assert_eq!(request.path, "/sap/bc/adt/testcodegen/dependencies/doubledata?ddlsourceName=ZI_VIEW");
    assert_eq!(request.accept.as_deref(), Some("application/vnd.sap.adt.codegen.data.v1+xml"));
}

#[test]
fn table_contents_rows_and_filter() {
    let (request, table, rows, filter) =
        table_contents_request(s("mara"), None, s("  WHERE MATNR = '1'  "), "GetTableContents").unwrap();
    assert_eq!(table, "MARA");
    assert_eq!(rows, 100);
    assert_eq!(filter.as_deref(), Some("WHERE MATNR = '1'"));
    assert_eq!(request.method, HttpMethod::Post);
    assert_eq!(request.path, "/sap/bc/adt/datapreview/ddic?rowNumber=100&ddicEntityName=MARA");
    assert_eq!(request.body.as_deref(), Some("WHERE MATNR = '1'"));
    assert_eq!(request.content_type.as_deref(), Some("text/plain"));
    assert_eq!(request.accept.as_deref(), Some("application/*"));

    let (bare, _, zero_rows, none) = table_contents_request(s("T"), Some(0), s("   "), "GetTableContents").unwrap();
    assert_eq!(zero_rows, 1);
    assert_eq!(none, None);
    assert_eq!(bare.body, None);
    assert_eq!(bare.content_type, None);
    assert!(refused_with(
        table_contents_request(None, None, None, "GetTableContents"),
        "tableName/table_name is required"
    ));
}

#[test]
fn pretty_printer_requests() {
    let print = pretty_print_request("report z.");
    assert_eq!(print.method, HttpMethod::Post);
    assert_eq!(print.path, "/sap/bc/adt/abapsource/prettyprinter");
    assert_eq!(print.body.as_deref(), Some("report z."));
    assert_eq!(print.accept.as_deref(), Some("text/plain"));

    let settings = pretty_printer_settings_request(true, "keywordUpper");
    assert_eq!(settings.method, HttpMethod::Put);
    assert_eq!(settings.path, "/sap/bc/adt/abapsource/prettyprinter/settings");
    assert_eq!(settings.content_type.as_deref(), Some("application/*"));
    assert_eq!(settings.accept, None);
    assert_eq!(
        settings.body.as_deref(),
        Some("<?xml version=\"1.0\" encoding=\"UTF-8\"?>\n<prettyprintersettings:PrettyPrinterSettings\nxmlns:prettyprintersettings=\"http://www.sap.com/adt/prettyprintersettings\"\nprettyprintersettings:indentation=\"true\" prettyprintersettings:style=\"keywordUpper\"/>")
    );
}

#[test]
fn find_definition_builds_the_navigation_uri() {
    let request = find_definition_request("/src", "code", 3, 0, 0, false, s("ZMAIN"));
    assert_eq!(
        request.path,
        "/sap/bc/adt/navigation/target?uri=%2Fsrc%3Fcontext%3DZMAIN%23start%3D3%2C1%3Bend%3D3%2C1&filter=definition"
    );
    assert_eq!(request.body.as_deref(), Some("code"));
    assert_eq!(request.content_type.as_deref(), Some("text/plain"));

    let implementation = find_definition_request("/src", "code", 0, 4, 7, true, s("  "));
    assert_eq!(
        implementation.path,
        "/sap/bc/adt/navigation/target?uri=%2Fsrc%23start%3D1%2C4%3Bend%3D1%2C7&filter=implementation"
    );
}

#[test]
fn find_references_adds_the_position_only_when_both_are_positive() {
    let at = find_references_request("/o", Some(2), Some(5));
    assert_eq!(at.path, "/sap/bc/adt/repository/informationsystem/usageReferences?uri=%2Fo%23start%3D2%2C5");
    let without = find_references_request("/o", Some(2), Some(0));
    assert_eq!(without.path, "/sap/bc/adt/repository/informationsystem/usageReferences?uri=%2Fo");
    assert_eq!(without.accept.as_deref(), Some("application/*"));
}

#[test]
fn code_completion_clamps_the_position() {
    let request = code_completion_request("/s", "x", 0, 9);
    assert_eq!(
        request.path,
        "/sap/bc/adt/abapsource/codecompletion/proposal?uri=%2Fs%23start%3D1%2C9&signalCompleteness=true"
    );
    assert_eq!(request.accept, None);
    assert_eq!(request.content_type.as_deref(), Some("application/*"));
}

#[test]
fn object_structure_and_class_components() {
    let (request, limit) = object_structure_request(s("ZCL_A"), Some(0), "GetObjectStructure").unwrap();
    assert_eq!(limit, 1);
    assert_eq!(request.path, "/sap/bc/adt/cai/objectexplorer/objects?objectName=ZCL_A&maxResults=1");
    assert!(refused_with(
        object_structure_request(None, None, "GetObjectStructure"),
        "objectName/object_name is required"
    ));
    let components = class_components_request("/sap/bc/adt/oo/classes/zcl_a");
    assert_eq!(
        components.path,
        "/sap/bc/adt/oo/classes/zcl_a/objectstructure?version=active&withShortDescriptions=true"
    );
}

#[test]
fn call_graph_defaults_per_tool() {
    let request = call_graph_request("/o", "callers", 3, 100);
    assert_eq!(request.path, "/sap/bc/adt/cai/callgraph?direction=callers&maxDepth=3&maxResults=100");
    assert_eq!(
        request.body.as_deref(),
        Some("<?xml version=\"1.0\" encoding=\"UTF-8\"?>\n<cai:callGraphRequest xmlns:cai=\"http://www.sap.com/adt/cai\">\n  <cai:objectUri>/o</cai:objectUri>\n</cai:callGraphRequest>")
    );

    let (_, direction, depth, results) =
        call_graph_plan(CallGraphTool::General, s("/o"), None, None, None, "GetCallGraph").unwrap();
    assert_eq!((direction.as_str(), depth, results), ("callers", 3, 100));
    let (_, direction, depth, results) =
        call_graph_plan(CallGraphTool::Callees, s("/o"), s("callers"), Some(0), Some(7), "GetCalleesOf").unwrap();
    assert_eq!((direction.as_str(), depth, results), ("callees", 1, 500));
    let (_, direction, depth, results) =
        call_graph_plan(CallGraphTool::Analysis, s("/o"), None, Some(9), None, "AnalyzeCallGraph").unwrap();
    assert_eq!((direction.as_str(), depth, results), ("callees", 9, 1000));
    assert!(refused_with(
        call_graph_plan(CallGraphTool::Callers, None, None, None, None, "GetCallersOf"),
        "objectUri/object_uri is required"
    ));
}

#[test]
fn user_transports_and_checks() {
    let (request, user) = user_transports_request(s(" dev "), "GetUserTransports").unwrap();
    assert_eq!(user, "DEV");
    assert_eq!(request.path, "/sap/bc/adt/cts/transportrequests?user=DEV&targets=true");
    assert!(refused_with(user_transports_request(None, "GetUserTransports"), "user_name is required"));

    let check = transport_check_request(s("/u&x"), s("ZP"), "GetTransportInfo").unwrap();
    assert_eq!(check.method, HttpMethod::Post);
    assert_eq!(check.path, "/sap/bc/adt/cts/transportchecks");
    assert_eq!(
        check.body.as_deref(),
        Some("<?xml version=\"1.0\" encoding=\"utf-8\"?>\n<asx:abap xmlns:asx=\"http://www.sap.com/abapxml\" version=\"1.0\">\n  <asx:values>\n    <DATA>\n      <DEVCLASS>ZP</DEVCLASS>\n      <OPERATION>I</OPERATION>\n      <URI>/u&amp;x</URI>\n    </DATA>\n  </asx:values>\n</asx:abap>")
    );
    assert!(refused_with(
        transport_check_request(None, s("ZP"), "GetTransportInfo"),
        "objectUrl/object_url is required"
    ));
    assert!(refused_with(
        transport_check_request(s("/u"), None, "GetTransportInfo"),
        "devClass/dev_class is required"
    ));
}

#[test]
fn list_transports_falls_back_to_the_session_user() {
    let (all, nobody) = list_transports_request(None, None);
    assert_eq!(nobody, "");
    assert_eq!(all.path, "/sap/bc/adt/cts/transportrequests");
    let (mine, user) = list_transports_request(None, s(" bob"));
    assert_eq!(user, "BOB");
    assert_eq!(mine.path, "/sap/bc/adt/cts/transportrequests?user=BOB");
    let (given, user) = list_transports_request(s("ann"), s("bob"));
    assert_eq!(user, "ANN");
    assert_eq!(given.accept.as_deref(), Some("application/vnd.sap.adt.transportorganizertree.v1+xml"));
}

#[test]
fn read_delete_and_release_a_transport() {
    let read = transport_request(TransportVerb::Read, s(" k900001 "), "GetTransport").unwrap();
    assert_eq!(read.method, HttpMethod::Get);
    assert_eq!(read.path, "/sap/bc/adt/cts/transportrequests/K900001");
    let delete = transport_request(TransportVerb::Delete, s("k1"), "DeleteTransport").unwrap();
    assert_eq!(delete.method, HttpMethod::Delete);
    assert!(refused_with(transport_request(TransportVerb::Read, None, "GetTransport"), "transport is required"));

    let (release, action) = release_transport_request(s("k1"), None, None, "ReleaseTransport").unwrap();
    assert_eq!(action, "newreleasejobs");
    assert_eq!(release.method, HttpMethod::Post);
    assert_eq!(release.path, "/sap/bc/adt/cts/transportrequests/K1/newreleasejobs");
    let (_, skip) = release_transport_request(s("k1"), Some(true), Some(true), "ReleaseTransport").unwrap();
    assert_eq!(skip, "relObjigchkatc");
    let (_, ignore) = release_transport_request(s("k1"), Some(false), Some(true), "ReleaseTransport").unwrap();
    assert_eq!(ignore, "relwithignlock");
}

#[test]
fn create_transport_body_and_layer() {
    let request =
        create_transport_request(s("a<b"), s(" zp "), s("Customizing"), s("ZL"), "CreateTransport").unwrap();
    assert_eq!(request.path, "/sap/bc/adt/cts/transports?transportLayer=ZL");
    assert_eq!(request.content_type.as_deref(), Some("application/vnd.sap.as+xml"));
    assert_eq!(request.accept.as_deref(), Some("text/plain"));
    assert_eq!(
        request.body.as_deref(),
        Some("<?xml version=\"1.0\" encoding=\"UTF-8\"?>\n<tm:root xmlns:tm=\"http://www.sap.com/cts/adt/tm\">\n  <tm:request tm:desc=\"a&lt;b\" tm:type=\"W\" tm:target=\"\" tm:cts_project=\"\">\n    <tm:abap_object tm:pgmid=\"R3TR\" tm:type=\"DEVC\" tm:name=\"ZP\"/>\n  </tm:request>\n</tm:root>")
    );
    let workbench = create_transport_request(s("d"), s("ZP"), None, s("  "), "CreateTransport").unwrap();
    assert_eq!(workbench.path, "/sap/bc/adt/cts/transports");
    assert!(workbench.body.unwrap().contains("tm:type=\"K\""));
    assert!(refused_with(
        create_transport_request(None, s("ZP"), None, None, "CreateTransport"),
        "description is required"
    ));
    assert!(refused_with(
        create_transport_request(s("d"), None, None, None, "CreateTransport"),
        "package is required"
    ));
}

#[test]
fn names_follow_unicode_case_mapping() {
    let messages = message_class_request("ÄB");
    assert_eq!(messages.path, "/sap/bc/adt/messageclass/%C3%A4b");
    let (package, name) = package_request("straße");
    assert_eq!(name, "STRASSE");
    assert!(package.path.contains("parent_name=STRASSE&"));
    let (tran, code) = named_lookup_request(NamedLookup::Transaction, "ä1");
    assert_eq!(code, "Ä1");
    assert_eq!(tran.path, "/sap/bc/adt/vit/wb/object_type/TRAN/object_name/%C3%841");
}
