use neuro_runtime::adt::AdtClient;
use neuro_runtime::diagnose::guarded_runtime_diagnose_component;
use neuro_runtime::errors::NeuroEngineError;
use neuro_runtime::policy::{enforce_domain_policy, enforce_source_update_policy};
use neuro_runtime::review::{review_prompt, user_facing_hint, ReviewTarget};
use neuro_runtime::types::{
    AdtAuth, AdtHttpConfig, AdtHttpEndpoints, AdtSearchResponse, AdtUpdateSourceRequest,
    DiagnoseStatus, SafetyPolicy,
};
use neuro_runtime::xml::parse_search_response_payload;

#[test]
fn build_url_appends_sap_query_parameters() {
    let client = AdtClient::new(AdtHttpConfig {
        base_url: "https://example.sap".to_string(),
        auth: AdtAuth::Anonymous,
        timeout_secs: 5,
        csrf_fetch_path: "/sap/bc/adt".to_string(),
        endpoints: AdtHttpEndpoints {
            search_objects_path:
                "/sap/bc/adt/repository/informationsystem/search?operation=quickSearch".to_string(),
        },
        insecure_tls: false,
        sap_client: Some("100".to_string()),
        sap_language: Some("EN".to_string()),
    })
    .expect("client should build");

    let url = client
        .build_url("/sap/bc/adt/repository/informationsystem/search?operation=quickSearch")
        .expect("url should be built");
    let query = url.split_once('?').map(|(_, q)| q).unwrap_or_default();

    assert!(query.contains("sap-client=100"));
    assert!(query.contains("sap-language=EN"));
}

#[test]
fn parse_search_response_payload_accepts_adt_xml() {
    let payload = r#"
            <adtcore:objectReferences xmlns:adtcore="http://www.sap.com/adt/core">
                <adtcore:objectReference
                    adtcore:uri="/sap/bc/adt/programs/programs/ztest_program"
                    adtcore:type="PROG/P"
                    adtcore:name="ZTEST_PROGRAM"
                    adtcore:packageName="ZTEST" />
            </adtcore:objectReferences>
        "#;

    let json_result: Result<AdtSearchResponse, String> =
        match serde_json::from_slice::<serde_json::Value>(payload.as_bytes()) {
            Ok(_) => Err("not a search response".to_string()),
            Err(error) => Err(error.to_string()),
        };
    let parsed = parse_search_response_payload(json_result, payload.as_bytes())
        .expect("search XML response should parse");

    assert_eq!(parsed.objects.len(), 1);
    assert_eq!(parsed.objects[0].name, "ZTEST_PROGRAM");
    assert_eq!(parsed.objects[0].object_type.as_deref(), Some("PROG/P"));
    assert_eq!(parsed.objects[0].package.as_deref(), Some("ZTEST"));
}

#[test]
fn source_update_policy_blocks_when_read_only() {
    let safety = SafetyPolicy {
        read_only: true,
        blocked_source_patterns: Vec::new(),
        allowed_ws_domains: Vec::new(),
        require_etag_for_updates: false,
    };

    let result = enforce_source_update_policy(
        &safety,
        &AdtUpdateSourceRequest {
            object_uri: "/sap/bc/adt/programs/programs/z_foo".to_string(),
            source: "REPORT z_foo.".to_string(),
            etag: Some("\"1\"".to_string()),
        },
    );

    assert!(matches!(result, Err(NeuroEngineError::SafetyViolation(_))));
}

#[test]
fn source_update_policy_requires_etag_when_enabled() {
    let safety = SafetyPolicy {
        read_only: false,
        blocked_source_patterns: Vec::new(),
        allowed_ws_domains: Vec::new(),
        require_etag_for_updates: true,
    };

    let result = enforce_source_update_policy(
        &safety,
        &AdtUpdateSourceRequest {
            object_uri: "/sap/bc/adt/programs/programs/z_foo".to_string(),
            source: "REPORT z_foo.".to_string(),
            etag: None,
        },
    );

    assert!(matches!(result, Err(NeuroEngineError::SafetyViolation(_))));
}

#[test]
fn domain_policy_blocks_non_whitelisted_domain() {
    let safety = SafetyPolicy {
        read_only: false,
        blocked_source_patterns: Vec::new(),
        allowed_ws_domains: vec!["adt".to_string()],
        require_etag_for_updates: false,
    };

    let result = enforce_domain_policy(&safety, "not-allowed");
    assert!(matches!(result, Err(NeuroEngineError::SafetyViolation(_))));
}

#[test]
fn diagnose_component_guard_blocks_legacy_name() {
    let component = guarded_runtime_diagnose_component(
        "vsp_ws",
        DiagnoseStatus::Healthy,
        "legacy name".to_string(),
        Some(4),
    );

    assert_eq!(component.component, "diagnose_naming_guard");
    assert_eq!(component.status, DiagnoseStatus::Unavailable);
    assert_eq!(
        component.detail,
        "diagnose component `vsp_ws` contains blocked legacy token `vsp`"
    );
    assert_eq!(component.latency_ms, None);
}

#[test]
fn review_prompt_files_rejects_when_no_non_empty_paths() {
    let err = review_prompt(
        &ReviewTarget::Files {
            paths: vec!["".to_string(), "   ".to_string()],
        },
        None,
    )
    .expect_err("expected validation error");

    assert!(err
        .message()
        .contains("must contain at least one non-empty path"));
}

#[test]
fn review_prompt_files_uses_trimmed_non_empty_paths_only() {
    let prompt = review_prompt(
        &ReviewTarget::Files {
            paths: vec![
                " src/lib.rs ".to_string(),
                "".to_string(),
                "\t".to_string(),
                "src/main.rs".to_string(),
            ],
        },
        None,
    )
    .expect("prompt should be generated");

    assert!(prompt.contains("Target files:"));
    assert!(prompt.contains("- src/lib.rs"));
    assert!(prompt.contains("- src/main.rs"));
    assert!(!prompt.contains("- \t"));
}

#[test]
fn user_facing_hint_files_reflects_file_scope() {
    assert_eq!(
        user_facing_hint(&ReviewTarget::Files {
            paths: vec![" src/lib.rs ".to_string(), "".to_string()],
        }),
        "file src/lib.rs"
    );

    assert_eq!(
        user_facing_hint(&ReviewTarget::Files {
            paths: vec!["a.rs".to_string(), "b.rs".to_string()],
        }),
        "2 files"
    );
}
