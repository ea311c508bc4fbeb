use neuro_runtime::adt::{
    csrf_token_from_header, ensure_success, is_json_content_type, next_csrf_action,
    response_to_string, should_retry_with_csrf, AdtClient, AdtOperation, CsrfAction, CsrfPhase,
};
use neuro_runtime::diagnose::{diagnose_report, overall_status, WsChannelState};
use neuro_runtime::errors::{AdtClientError, NeuroMcpError, NeuroWsClientError};
use neuro_runtime::tools::{
    is_implemented_tool, route_tool, unmatched_tool_error, ToolRegistry, ToolRoute,
};
use neuro_runtime::types::{
    AdtAuth, AdtHttpConfig, AdtHttpEndpoints, DiagnoseStatus, RuntimeDiagnoseComponent,
    SafetyPolicy,
};
use neuro_runtime::ws::{
    check_connect_headers, fail_pending, outbound_closed, prepare_request, reader_step,
    settle_request, writer_failure_reason, PendingTable, ReaderAction, ReaderEvent, WaitOutcome,
    WriterFailure,
};

fn config(base_url: &str, client: Option<&str>, language: Option<&str>) -> AdtHttpConfig {
    AdtHttpConfig {
        base_url: base_url.to_string(),
        auth: AdtAuth::Anonymous,
        timeout_secs: 5,
        csrf_fetch_path: "/sap/bc/adt".to_string(),
        endpoints: AdtHttpEndpoints {
            search_objects_path:
                "/sap/bc/adt/repository/informationsystem/search?operation=quickSearch".to_string(),
        },
        insecure_tls: false,
        sap_client: client.map(str::to_string),
        sap_language: language.map(str::to_string),
    }
}

fn open_policy() -> SafetyPolicy {
    SafetyPolicy {
        read_only: false,
        blocked_source_patterns: Vec::new(),
        allowed_ws_domains: Vec::new(),
        require_etag_for_updates: false,
    }
}

#[test]
fn dispatch_text_routes_response_by_id() {
    let mut pending: PendingTable<&str> = PendingTable::new();
    assert_eq!(pending.insert("req-1".to_string(), "waiter-1"), None);

    let action = reader_step(ReaderEvent::Text(
        r#"{"id":"req-1","domain":"adt","action":"ping","payload":{"ok":true}}"#.to_string(),
    ));
    assert!(matches!(action, ReaderAction::Dispatch(ref t) if t.contains("req-1")));

    assert_eq!(pending.dispatch("req-1"), Some("waiter-1"));
    assert_eq!(pending.len(), 0);
    assert_eq!(pending.dispatch("req-1"), None);
}

#[test]
fn fail_pending_notifies_all_waiters() {
    let mut pending: PendingTable<u32> = PendingTable::new();
    pending.insert("req-2".to_string(), 2);
    pending.insert("req-3".to_string(), 3);

    let failed = fail_pending(&mut pending, "test-close");

    assert_eq!(failed.len(), 2);
    assert_eq!(failed[0].0, 2);
    assert_eq!(failed[1].0, 3);
    for (_, error) in &failed {
        assert!(matches!(
            error,
            NeuroWsClientError::ConnectionClosed { reason } if reason == "test-close"
        ));
    }
    assert_eq!(pending.len(), 0);
}

#[test]
fn pending_table_replaces_a_waiter_registered_twice() {
    let mut pending: PendingTable<u32> = PendingTable::new();
    assert_eq!(pending.insert("a".to_string(), 1), None);
    assert_eq!(pending.insert("a".to_string(), 2), Some(1));
    assert_eq!(pending.len(), 1);
    assert_eq!(pending.remove("a"), Some(2));
    assert_eq!(pending.remove("a"), None);
}

#[test]
fn pending_table_ignores_a_reply_without_id() {
    let mut pending: PendingTable<u32> = PendingTable::new();
    pending.insert("x".to_string(), 7);
    assert_eq!(pending.dispatch(""), None);
    assert_eq!(pending.len(), 1);
    assert_eq!(pending.drain(), vec![7]);
}

#[test]
fn reader_steps_follow_the_frame_kind() {
    assert_eq!(
        reader_step(ReaderEvent::Binary(b"hello".to_vec())),
        ReaderAction::Dispatch("hello".to_string())
    );
    assert_eq!(reader_step(ReaderEvent::Binary(vec![0xff, 0xfe])), ReaderAction::Ignore);
    assert_eq!(
        reader_step(ReaderEvent::Close),
        ReaderAction::FailAll("remote endpoint closed the websocket".to_string())
    );
    assert_eq!(reader_step(ReaderEvent::Other), ReaderAction::Ignore);
    assert_eq!(
        reader_step(ReaderEvent::Failure("boom".to_string())),
        ReaderAction::FailAll("reader failure: boom".to_string())
    );
    assert_eq!(
        reader_step(ReaderEvent::End),
        ReaderAction::FailAll("reader terminated without close frame".to_string())
    );
}

#[test]
fn writer_failures_and_wait_outcomes() {
    assert_eq!(writer_failure_reason(WriterFailure::Send), "writer failed to send frame");
    assert_eq!(
        writer_failure_reason(WriterFailure::Close),
        "writer failed to close connection"
    );
    assert_eq!(
        outbound_closed(),
        NeuroWsClientError::ConnectionClosed { reason: "outbound channel is closed".to_string() }
    );

    let (answered, cleanup) = settle_request::<u8>(WaitOutcome::Answered(Ok(5)), 30);
    assert_eq!(answered, Ok(5));
    assert!(!cleanup);
    let (dropped, cleanup) = settle_request::<u8>(WaitOutcome::Dropped, 30);
    assert_eq!(dropped, Err(NeuroWsClientError::ResponseChannelDropped));
    assert!(!cleanup);
    let (timed_out, cleanup) = settle_request::<u8>(WaitOutcome::TimedOut, 30);
    assert_eq!(timed_out, Err(NeuroWsClientError::Timeout { timeout_secs: 30 }));
    assert!(cleanup);
}

#[test]
fn prepared_requests_carry_domain_action_and_a_fresh_id() {
    let first = prepare_request("adt", "ping", 1u8);
    let second = prepare_request("adt", "ping", 1u8);
    assert_eq!(first.domain, "adt");
    assert_eq!(first.action, "ping");
    assert_eq!(first.payload, 1);
    assert_eq!(first.ok, None);
    assert_eq!(first.error, None);
    assert_eq!(first.id.len(), 36);
    assert_ne!(first.id, second.id);
}

#[test]
fn connect_headers_are_checked_in_order() {
    assert!(check_connect_headers(&vec![("x-token".to_string(), "abc".to_string())]).is_ok());
    let bad_name = check_connect_headers(&vec![
        ("x-ok".to_string(), "1".to_string()),
        ("bad name".to_string(), "2".to_string()),
    ]);
    assert!(matches!(
        bad_name,
        Err(NeuroWsClientError::InvalidHeader { ref name, .. }) if name == "bad name"
    ));
    let bad_value = check_connect_headers(&vec![("x-a".to_string(), "line\nbreak".to_string())]);
    assert!(matches!(
        bad_value,
        Err(NeuroWsClientError::InvalidHeader { ref name, .. }) if name == "x-a"
    ));
}

#[test]
fn update_source_retries_with_csrf_token() {
    assert_eq!(
        next_csrf_action(CsrfPhase::FirstAttempt, 403, Some("Required")),
        CsrfAction::RefreshAndResend
    );
    assert_eq!(
        next_csrf_action(CsrfPhase::AfterRefresh, 204, None),
        CsrfAction::Finish
    );
    assert_eq!(
        csrf_token_from_header(Some("token-123".to_string())).expect("token"),
        "token-123"
    );
}

#[test]
fn post_text_retries_with_csrf_token() {
    assert!(should_retry_with_csrf(403, Some("required")));
    assert_eq!(
        next_csrf_action(CsrfPhase::FirstAttempt, 403, Some("required")),
        CsrfAction::RefreshAndResend
    );
    assert_eq!(next_csrf_action(CsrfPhase::AfterRefresh, 200, None), CsrfAction::Finish);
}

#[test]
fn put_text_retries_with_csrf_token() {
    assert_eq!(
        next_csrf_action(CsrfPhase::FirstAttempt, 403, Some("REQUIRED")),
        CsrfAction::RefreshAndResend
    );
    assert_eq!(
        next_csrf_action(CsrfPhase::AfterRefresh, 403, Some("required")),
        CsrfAction::Finish
    );
}

#[test]
fn delete_text_retries_with_csrf_token() {
    assert_eq!(
        next_csrf_action(CsrfPhase::FirstAttempt, 403, Some("required")),
        CsrfAction::RefreshAndResend
    );
    assert_eq!(next_csrf_action(CsrfPhase::AfterRefresh, 200, None), CsrfAction::Finish);
}

#[test]
fn csrf_is_not_retried_for_other_refusals() {
    assert!(!should_retry_with_csrf(403, None));
    assert!(!should_retry_with_csrf(403, Some("fetch")));
    assert!(!should_retry_with_csrf(401, Some("required")));
    assert!(matches!(csrf_token_from_header(None), Err(AdtClientError::MissingCsrfToken)));
}

#[test]
fn response_checks() {
    assert!(ensure_success(AdtOperation::SearchObjects, 200, String::new()).is_ok());
    let refused = ensure_success(AdtOperation::SearchObjects, 500, "boom".to_string());
    assert!(matches!(
        refused,
        Err(AdtClientError::UnexpectedStatus { status: 500, ref body, .. }) if body == "boom"
    ));
    assert_eq!(response_to_string(b"abc".to_vec()).expect("utf8"), "abc");
    assert!(matches!(
        response_to_string(vec![0xc3, 0x28]),
        Err(AdtClientError::Utf8 { .. })
    ));
    assert!(is_json_content_type(Some("application/json; charset=utf-8")));
    assert!(!is_json_content_type(Some("application/xml")));
    assert!(!is_json_content_type(None));
}

#[test]
fn client_rejects_a_relative_base_url() {
    assert!(matches!(
        AdtClient::new(config("not a url", None, None)),
        Err(AdtClientError::InvalidBaseUrl { .. })
    ));
    match AdtClient::new(config("not a url", None, None)) {
        Err(error) => {
            let message = error.message();
            assert!(message.starts_with("invalid base url `not a url/`: "));
            assert!(message.len() > "invalid base url `not a url/`: ".len());
        }
        Ok(_) => panic!("a relative base URL must be refused"),
    }
}

#[test]
fn build_url_without_sap_parameters_keeps_the_path() {
    let client = AdtClient::new(config("https://example.sap/root", None, None)).expect("client");
    assert_eq!(
        client.build_url("/sap/bc/adt/discovery").expect("url"),
        "https://example.sap/root/sap/bc/adt/discovery"
    );
    assert_eq!(
        client.build_url("https://other.sap/x").expect("url"),
        "https://other.sap/x"
    );
}

#[test]
fn search_url_appends_query_and_limit() {
    let client = AdtClient::new(config("https://example.sap", Some("100"), None)).expect("client");
    let url = client.search_url("ZCL_NEURO", Some(5)).expect("url");
    assert!(url.contains("operation=quickSearch"));
    assert!(url.contains("sap-client=100"));
    assert!(url.contains("query=ZCL_NEURO"));
    assert!(url.contains("maxResults=5"));
}

#[test]
fn list_tools_contains_parity_entries() {
    let registry = ToolRegistry::new();
    let tools = registry.list_tools();
    assert!(tools.iter().any(|tool| tool.name == "SearchObject"));
    assert!(tools.iter().any(|tool| tool.name == "GetSource"));
    assert!(tools.iter().any(|tool| tool.name == "diagnose"));
    assert!(registry.contains("GetSource"));
}

#[test]
fn invoke_unknown_tool_returns_error() {
    let registry = ToolRegistry::new();
    assert!(route_tool("unknown").is_none());
    let error = unmatched_tool_error(&registry, "unknown");
    assert!(matches!(error, NeuroMcpError::UnknownTool(ref name) if name == "unknown"));
}

#[test]
fn invoke_implemented_tool_reaches_engine() {
    assert!(is_implemented_tool("ActivatePackage"));
    assert!(route_tool("ActivatePackage").is_some());
    assert_eq!(route_tool("GetSource"), Some(ToolRoute::GetSource));
}

#[test]
fn diagnose_component_names_do_not_use_legacy_vsp_prefix() {
    let report = diagnose_report(Ok(()), Some(12), WsChannelState::NotConfigured, &open_policy(), 1);
    assert!(report.validate_component_names().is_ok());
    assert!(report.components.iter().all(|component| !component.component.contains("vsp")));
    assert!(report.components.iter().any(|component| component.component == "neuro_ws"));
}

#[test]
fn overall_status_is_the_worst_component() {
    let component = |status| RuntimeDiagnoseComponent {
        component: "c".to_string(),
        status,
        detail: String::new(),
        latency_ms: None,
    };
    assert_eq!(overall_status(&vec![]), DiagnoseStatus::Healthy);
    assert_eq!(
        overall_status(&vec![component(DiagnoseStatus::Healthy), component(DiagnoseStatus::Degraded)]),
        DiagnoseStatus::Degraded
    );
    assert_eq!(
        overall_status(&vec![
            component(DiagnoseStatus::Unavailable),
            component(DiagnoseStatus::Degraded)
        ]),
        DiagnoseStatus::Unavailable
    );
    let report = diagnose_report(
        Err("down".to_string()),
        None,
        WsChannelState::Connected,
        &open_policy(),
        7,
    );
    assert_eq!(report.overall_status, DiagnoseStatus::Degraded);
    assert_eq!(report.components[0].component, "adt_http");
    assert_eq!(report.components[0].status, DiagnoseStatus::Degraded);
    assert_eq!(report.components[0].detail, "down");
    assert_eq!(report.timestamp_epoch_secs, 7);
}
