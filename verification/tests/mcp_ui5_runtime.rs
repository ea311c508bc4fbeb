use neuro_runtime::errors::NeuroMcpError;
use neuro_runtime::mcp::requests::HttpMethod;
use neuro_runtime::mcp::runtime::{
    dump_request, list_dumps_request, list_sql_traces_request, list_traces_request,
    sql_trace_state_request, trace_request,
};
use neuro_runtime::mcp::ui5::{
    app_request, create_app_request, delete_app_request, file_request, list_apps_request,
    upload_request, FileVerb,
};

fn refused_with<T: std::fmt::Debug>(result: Result<T, NeuroMcpError>, expected: &str) -> bool {
    matches!(result, Err(NeuroMcpError::InvalidArguments { ref message, .. }) if message == expected)
}

fn s(text: &str) -> Option<String> {
    Some(text.to_owned())
}

#[test]
fn ui5_app_listing_and_reading() {
    let all = list_apps_request(None, s("  "));
    assert_eq!(all.method, HttpMethod::Get);
    assert_eq!(all.path, "/sap/bc/adt/filestore/ui5-bsp/objects?maxResults=100");
    assert_eq!(all.accept.as_deref(), Some("application/atom+xml"));
    let named = list_apps_request(Some(0), s("zapp"));
    assert_eq!(named.path, "/sap/bc/adt/filestore/ui5-bsp/objects?maxResults=1&name=zapp");

    let (app, name) = app_request(s(" zapp "), "UI5GetApp").unwrap();
    assert_eq!(name, "ZAPP");
    assert_eq!(app.path, "/sap/bc/adt/filestore/ui5-bsp/objects/ZAPP/content");
    assert!(refused_with(app_request(None, "UI5GetApp"), "app_name is required"));
}

#[test]
fn ui5_files_are_addressed_below_the_app() {
    let read = file_request(FileVerb::Read, s("zapp"), s(" /webapp/index.html"), "UI5GetFileContent").unwrap();
    assert_eq!(read.method, HttpMethod::Get);
    assert_eq!(read.path, "/sap/bc/adt/filestore/ui5-bsp/objects/ZAPP%2Fwebapp%2Findex.html/content");
    assert_eq!(read.accept, None);
    let delete = file_request(FileVerb::Delete, s("zapp"), s("a.js"), "UI5DeleteFile").unwrap();
    assert_eq!(delete.method, HttpMethod::Delete);
    assert_eq!(delete.path, "/sap/bc/adt/filestore/ui5-bsp/objects/ZAPP%2Fa.js");
    assert!(refused_with(file_request(FileVerb::Read, None, s("a"), "UI5GetFileContent"), "app_name is required"));
    assert!(refused_with(file_request(FileVerb::Read, s("z"), None, "UI5GetFileContent"), "file_path is required"));

    let upload = upload_request(s("zapp"), s("a.js"), s("x=1"), None, "UI5UploadFile").unwrap();
    assert_eq!(upload.method, HttpMethod::Put);
    assert_eq!(upload.path, "/sap/bc/adt/filestore/ui5-bsp/objects/ZAPP%2Fa.js/content");
    assert_eq!(upload.body.as_deref(), Some("x=1"));
    assert_eq!(upload.content_type.as_deref(), Some("application/octet-stream"));
    let typed = upload_request(s("zapp"), s("a.js"), s("x"), s("text/javascript"), "UI5UploadFile").unwrap();
    assert_eq!(typed.content_type.as_deref(), Some("text/javascript"));
    assert!(refused_with(upload_request(s("z"), s("a"), None, None, "UI5UploadFile"), "content is required"));
}

#[test]
fn ui5_app_creation_and_deletion() {
    let (create, name) = create_app_request(s(" zapp "), s("My & app"), s("ZPKG"), s("K1"), "UI5CreateApp").unwrap();
    assert_eq!(name, "ZAPP");
    assert_eq!(create.method, HttpMethod::Post);
    assert_eq!(create.path, "/sap/bc/adt/filestore/ui5-bsp/objects?corrNr=K1");
    assert_eq!(create.content_type.as_deref(), Some("application/xml"));
    assert_eq!(
        create.body.as_deref(),
        Some("<?xml version=\"1.0\" encoding=\"UTF-8\"?>\n<bsp:application xmlns:bsp=\"http://www.sap.com/adt/bsp\"\n    xmlns:adtcore=\"http://www.sap.com/adt/core\"\n    adtcore:name=\"ZAPP\"\n    adtcore:description=\"My &amp; app\"\n    adtcore:packageName=\"ZPKG\">\n</bsp:application>")
    );
    assert!(refused_with(create_app_request(s("a"), None, s("P"), None, "UI5CreateApp"), "description is required"));
    assert!(refused_with(create_app_request(s("a"), s("d"), None, None, "UI5CreateApp"), "package_name is required"));

    let (delete, name) = delete_app_request(s("zapp"), s("K1"), "UI5DeleteApp").unwrap();
    assert_eq!(name, "ZAPP");
    assert_eq!(delete.method, HttpMethod::Delete);
    assert_eq!(delete.path, "/sap/bc/adt/filestore/ui5-bsp/objects/ZAPP?corrNr=K1");
    let (plain, _) = delete_app_request(s("zapp"), s(" "), "UI5DeleteApp").unwrap();
    assert_eq!(plain.path, "/sap/bc/adt/filestore/ui5-bsp/objects/ZAPP");
}

#[test]
fn dump_listing_joins_its_filters() {
    let request = list_dumps_request(s(" dev "), None, s(" "), None, s("20240101"), s("20240131"), None);
    assert_eq!(request.method, HttpMethod::Get);
    assert_eq!(
        request.path,
        "/sap/bc/adt/runtime/dumps?%24filter=user+eq+%27dev%27+and+datetime+ge+%2720240101000000%27+and+datetime+le+%2720240131235959%27&%24top=100"
    );
    assert_eq!(request.accept.as_deref(), Some("application/atom+xml;type=feed"));
    let bare = list_dumps_request(None, None, None, None, None, None, Some(0));
    assert_eq!(bare.path, "/sap/bc/adt/runtime/dumps?%24top=1");
}

#[test]
fn dump_and_trace_ids_are_normalized() {
    let (dump, id) = dump_request(s(" /sap/bc/adt/runtime/dump/D1/ "), "GetDump").unwrap();
    assert_eq!(id, "D1");
    assert_eq!(dump.path, "/sap/bc/adt/runtime/dump/D1");
    assert_eq!(dump.accept.as_deref(), Some("text/html"));
    assert!(refused_with(dump_request(None, "GetDump"), "dump_id is required"));

    let (trace, id, tool) = trace_request(s("a/b/T1/"), None, "GetTrace").unwrap();
    assert_eq!(id, "T1");
    assert_eq!(tool, "hitlist");
    assert_eq!(trace.path, "/sap/bc/adt/runtime/traces/abaptraces/T1/hitlist");
    let (_, _, tool) = trace_request(s("T2"), s("dbAccesses"), "GetTrace").unwrap();
    assert_eq!(tool, "dbAccesses");
    assert!(refused_with(trace_request(None, None, "GetTrace"), "trace_id is required"));
}

#[test]
fn trace_listings() {
    let traces = list_traces_request(s(" dev "), None, s("PROG"), Some(5));
    assert_eq!(traces.path, "/sap/bc/adt/runtime/traces/abaptraces?user=dev&objectType=PROG&%24top=5");
    assert_eq!(sql_trace_state_request().path, "/sap/bc/adt/st05/trace/state");
    let sql = list_sql_traces_request(None, None);
    assert_eq!(sql.path, "/sap/bc/adt/st05/trace/directory?%24top=100");
    assert_eq!(sql.accept.as_deref(), Some("application/atom+xml"));
}
