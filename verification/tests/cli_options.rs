use neuro_runtime::cli::{build_engine_config, resolve_source_payload, CliOptions, SourcePayload};
use neuro_runtime::types::AdtAuth;

fn options() -> CliOptions {
    CliOptions {
        adt_base_url: "http://127.0.0.1:8000".to_owned(),
        adt_timeout_secs: 30,
        adt_csrf_fetch_path: "/sap/bc/adt".to_owned(),
        adt_search_path: "/sap/bc/adt/repository/informationsystem/search?operation=quickSearch".to_owned(),
        adt_user: None,
        adt_password: None,
        adt_cookie: None,
        ws_url: None,
        ws_timeout_secs: 15,
        read_only: false,
        blocked_patterns: vec![],
        allowed_ws_domains: vec![],
    }
}

#[test]
fn options_describe_the_engine() {
    let mut cli = options();
    cli.ws_url = Some("ws://127.0.0.1:9000".to_owned());
    cli.read_only = true;
    cli.blocked_patterns = vec!["DELETE FROM".to_owned()];
    cli.allowed_ws_domains = vec!["rfc".to_owned(), "debug".to_owned()];
    let config = build_engine_config(&cli);
    assert_eq!(config.adt.base_url, "http://127.0.0.1:8000");
    assert_eq!(config.adt.timeout_secs, 30);
    assert_eq!(config.adt.csrf_fetch_path, "/sap/bc/adt");
    assert_eq!(
        config.adt.endpoints.search_objects_path,
        "/sap/bc/adt/repository/informationsystem/search?operation=quickSearch"
    );
    assert!(matches!(config.adt.auth, AdtAuth::Anonymous));
    assert!(!config.adt.insecure_tls);
    assert_eq!(config.adt.sap_client, None);
    let ws = config.ws.expect("a WebSocket URL gives a channel");
    assert_eq!(ws.url, "ws://127.0.0.1:9000");
    assert_eq!(ws.request_timeout_secs, 15);
    assert!(ws.connect_headers.is_empty());
    assert!(config.safety.read_only);
    assert_eq!(config.safety.blocked_source_patterns, vec!["DELETE FROM".to_owned()]);
    assert_eq!(config.safety.allowed_ws_domains, vec!["rfc".to_owned(), "debug".to_owned()]);
    assert!(!config.safety.require_etag_for_updates);
    assert!(build_engine_config(&options()).ws.is_none());
}

#[test]
fn a_cookie_wins_over_user_and_password() {
    let mut cli = options();
    cli.adt_user = Some("dev".to_owned());
    cli.adt_password = Some("secret".to_owned());
    assert!(matches!(
        build_engine_config(&cli).adt.auth,
        AdtAuth::Basic { ref username, ref password } if username == "dev" && password == "secret"
    ));
    cli.adt_cookie = Some("SAP_SESSIONID=1".to_owned());
    assert!(matches!(
        build_engine_config(&cli).adt.auth,
        AdtAuth::Cookie { ref cookie } if cookie == "SAP_SESSIONID=1"
    ));
    let mut user_only = options();
    user_only.adt_user = Some("dev".to_owned());
    assert!(matches!(build_engine_config(&user_only).adt.auth, AdtAuth::Anonymous));
}

#[test]
fn update_source_comes_from_exactly_one_place() {
    assert_eq!(
        resolve_source_payload(Some("REPORT z.".to_owned()), None),
        Ok(SourcePayload::Inline("REPORT z.".to_owned()))
    );
    assert_eq!(
        resolve_source_payload(None, Some("z.abap".to_owned())),
        Ok(SourcePayload::File("z.abap".to_owned()))
    );
    assert_eq!(
        resolve_source_payload(Some("a".to_owned()), Some("b".to_owned())),
        Err("provide only one of --source or --source-file".to_owned())
    );
    assert_eq!(resolve_source_payload(None, None), Err("one of --source or --source-file is required".to_owned()));
}
