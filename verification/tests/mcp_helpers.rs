use neuro_runtime::errors::NeuroMcpError;
use neuro_runtime::json::JsonValue;
use neuro_runtime::mcp::abapfile::{
    build_table_ddl, parse_abap_file_info, parse_table_field_spec, TableFieldDefinition,
};
use neuro_runtime::mcp::diff::{generate_line_diff, text_lines, ChangeKind};
use neuro_runtime::mcp::encode::{encode_path_segment, encode_query_value};
use neuro_runtime::mcp::grep::{grep_source, grep_targets};
use neuro_runtime::mcp::jsonx::{
    extract_json_string, extract_non_empty_string, find_json_key, parse_bool_value,
    parse_table_fields,
};
use neuro_runtime::mcp::paths::{
    build_class_include_uri, build_object_url, build_path_with_query, build_source_uri,
    build_ui5_file_content_path, default_export_filename, is_source_object_type,
    normalize_creatable_type, normalize_dump_id, normalize_trace_id, object_type_priority,
    parent_object_uri_from_include, resolve_output_path, resolve_source_uri,
};
use neuro_runtime::mcp::pattern::{build_error, captures, escape, replace};
use neuro_runtime::mcp::walk::PackageWalk;
use neuro_runtime::mcp::xmltext::{
    escape_xml, extract_first_attr, extract_first_tag_value, extract_system_check_variant,
    extract_xml_attr_value, extract_xml_tag_value, parse_xml_references,
};

fn s(v: &str) -> JsonValue {
    JsonValue::Str(v.to_string())
}

fn obj(members: Vec<(&str, JsonValue)>) -> JsonValue {
    JsonValue::Object(members.into_iter().map(|(k, v)| (k.to_string(), v)).collect())
}

#[test]
fn path_segments_are_form_encoded() {
    assert_eq!(encode_path_segment("a b/c"), "a+b%2Fc");
    assert_eq!(encode_path_segment("Z_TEST-1.x*"), "Z_TEST-1.x*");
    assert_eq!(encode_path_segment("ä"), "%C3%A4");
    assert_eq!(encode_query_value("x y&z=1"), "x+y%26z%3D1");
    assert_eq!(encode_query_value(""), "");
}

#[test]
fn object_urls_by_type() {
    assert_eq!(
        build_object_url("PROG/P", "ZTEST", None),
        "/sap/bc/adt/programs/programs/ZTEST"
    );
    assert_eq!(build_object_url("CLAS/OC", "ZCL_A", None), "/sap/bc/adt/oo/classes/ZCL_A");
    assert_eq!(
        build_object_url("FUGR/FF", "Z_FM", Some("zgrp")),
        "/sap/bc/adt/functions/groups/ZGRP/fmodules/Z_FM"
    );
    assert_eq!(
        build_object_url("DDLS/DF", "ZI_VIEW", None),
        "/sap/bc/adt/ddic/ddl/sources/zi_view"
    );
    assert_eq!(build_object_url("DEVC/K", "$TMP", None), "/sap/bc/adt/packages/%24TMP");
}

#[test]
fn source_and_include_uris() {
    assert_eq!(
        build_source_uri("/sap/bc/adt/programs/programs/{name}/source/main", "Z A"),
        "/sap/bc/adt/programs/programs/Z+A/source/main"
    );
    assert_eq!(
        build_class_include_uri("zcl_a", "TestClasses"),
        "/sap/bc/adt/oo/classes/ZCL_A/includes/testclasses"
    );
    assert_eq!(
        build_class_include_uri("zcl_a", "MAIN"),
        "/sap/bc/adt/oo/classes/ZCL_A/source/main"
    );
    assert_eq!(
        parent_object_uri_from_include("/sap/bc/adt/oo/classes/ZCL_A/includes/testclasses"),
        Some("/sap/bc/adt/oo/classes/ZCL_A".to_string())
    );
    assert_eq!(parent_object_uri_from_include("/sap/bc/adt/programs/programs/Z"), None);
    assert_eq!(
        resolve_source_uri("PROG/P", "ZREP", None, None),
        Some("/sap/bc/adt/programs/programs/ZREP/source/main".to_string())
    );
}

#[test]
fn query_paths_and_ui5_paths() {
    assert_eq!(build_path_with_query("/p", &vec![]), "/p");
    assert_eq!(
        build_path_with_query("/p", &vec![("a".to_string(), "x y".to_string()), ("b".to_string(), "1".to_string())]),
        "/p?a=x+y&b=1"
    );
    assert_eq!(
        build_ui5_file_content_path(" app ", "/webapp/index.html"),
        "/sap/bc/adt/filestore/ui5-bsp/objects/APP%2Fwebapp%2Findex.html/content"
    );
}

#[test]
fn type_names_and_ids() {
    assert_eq!(normalize_creatable_type(" report "), Some("PROG/P"));
    assert_eq!(normalize_creatable_type("class"), Some("CLAS/OC"));
    assert_eq!(normalize_creatable_type("xyz"), None);
    assert!(is_source_object_type(" prog/p "));
    assert!(!is_source_object_type("DEVC/K"));
    assert_eq!(object_type_priority("clas/oc"), 80);
    assert_eq!(object_type_priority("DOMA/DT"), 10);
    assert_eq!(object_type_priority("X"), 500);
    assert_eq!(normalize_trace_id(" /traces/abc/ "), "abc");
    assert_eq!(normalize_dump_id("dump-1"), "dump-1");
}

#[test]
fn export_file_names_and_paths() {
    assert_eq!(default_export_filename("CLAS/OC", " ZCL_A ", "testclasses"), "zcl_a.testclasses.abap");
    assert_eq!(default_export_filename("clas", "ZCL_A", "main"), "zcl_a.clas.abap");
    assert_eq!(default_export_filename("PROG/P", "ZP", ""), "zp.prog.abap");
    assert_eq!(default_export_filename("Some Type/X", "N", ""), "n.some_type_x.abap");
    assert_eq!(resolve_output_path(None, "PROG/P", "ZP", "", false), "zp.prog.abap");
    assert_eq!(resolve_output_path(Some("out/".to_string()), "PROG/P", "ZP", "", false), joined("out/", "zp.prog.abap"));
    assert_eq!(resolve_output_path(Some("dir".to_string()), "PROG/P", "ZP", "", false), joined("dir", "zp.prog.abap"));
    assert_eq!(resolve_output_path(Some(" file.abap ".to_string()), "PROG/P", "ZP", "", false), "file.abap");
    assert_eq!(resolve_output_path(Some("x.d".to_string()), "PROG/P", "ZP", "", true), joined("x.d", "zp.prog.abap"));
    assert_eq!(resolve_output_path(Some("out\\".to_string()), "PROG/P", "ZP", "", false), joined("out\\", "zp.prog.abap"));
    assert_eq!(resolve_output_path(Some("  ".to_string()), "PROG/P", "ZP", "", false), "zp.prog.abap");
}

#[test]
fn xml_text_readings() {
    assert_eq!(escape_xml("<a & 'b'>\""), "&lt;a &amp; &apos;b&apos;&gt;&quot;");
    assert_eq!(extract_xml_attr_value("a=\"1\" b=\"2\"", "b"), Some("2".to_string()));
    assert_eq!(extract_xml_attr_value("a=\"1\"", "c"), None);
    assert_eq!(
        extract_system_check_variant(r#"<p name="systemCheckVariant" value="DEFAULT"/>"#),
        Some("DEFAULT".to_string())
    );
    assert_eq!(extract_system_check_variant("<p/>"), None);
    assert_eq!(extract_xml_tag_value("<a> x </a>", "a"), Some("x".to_string()));
    assert_eq!(extract_xml_tag_value("<a> x", "a"), None);
    assert_eq!(
        extract_first_attr("uri=\"/u\" name=\"N\"", &["adtcore:name", "name"]),
        Some("N".to_string())
    );
    assert_eq!(
        extract_first_tag_value("<x><ns:msg kind=\"e\">\n hello </ns:msg></x>", "msg"),
        Some("hello".to_string())
    );
}

#[test]
fn object_references_are_read_in_order() {
    let xml = r#"<adtcore:objectReferences>
        <adtcore:objectReference adtcore:uri="/sap/bc/adt/packages/zsub" adtcore:type="DEVC/K" adtcore:name="ZSUB"/>
        <adtcore:objectReference adtcore:uri="/sap/bc/adt/programs/programs/zp" adtcore:type="PROG/P" adtcore:name="ZP" adtcore:parentUri="/sap/bc/adt/packages/zsub"/>
    </adtcore:objectReferences>"#;
    let refs = parse_xml_references(xml);
    assert_eq!(refs.len(), 2);
    assert_eq!(refs[0].name, "ZSUB");
    assert_eq!(refs[0].object_type, "DEVC/K");
    assert_eq!(refs[1].uri, "/sap/bc/adt/programs/programs/zp");
    assert_eq!(refs[1].parent_uri.as_deref(), Some("/sap/bc/adt/packages/zsub"));

    assert_eq!(grep_targets(&refs, &vec![]), vec!["/sap/bc/adt/programs/programs/zp".to_string()]);
    assert!(grep_targets(&refs, &vec!["clas/oc".to_string()]).is_empty());
    assert_eq!(
        grep_targets(&refs, &vec!["prog/p".to_string()]),
        vec!["/sap/bc/adt/programs/programs/zp".to_string()]
    );
}

#[test]
fn package_walk_visits_each_package_once() {
    let mut walk = PackageWalk::new();
    walk.start(" zroot ");
    assert_eq!(walk.next(), Some("ZROOT".to_string()));
    walk.absorb(
        r#"<r><o adtcore:type="DEVC/K" adtcore:name="zsub"/><o adtcore:type="devc/k" adtcore:name="ZROOT"/><o adtcore:type="PROG/P" adtcore:name="ZP"/></r>"#,
    );
    assert_eq!(walk.next(), Some("ZSUB".to_string()));
    walk.absorb(r#"<r><o adtcore:type="DEVC/K" adtcore:name="ZSUB"/></r>"#);
    assert_eq!(walk.next(), None);
    walk.start("zsub");
    walk.start("  ");
    assert_eq!(walk.next(), None);
    assert_eq!(walk.found_packages(), vec!["ZROOT".to_string(), "ZSUB".to_string()]);
}

#[test]
fn regex_wrappers() {
    assert_eq!(escape("a.b*"), "a\\.b\\*");
    assert!(build_error("(", false).is_some());
    assert!(build_error("a+", true).is_none());
    let found = captures("a(b)", false, "ab-AB-ab");
    assert_eq!(found.len(), 2);
    assert_eq!(found[0], vec![Some("ab".to_string()), Some("b".to_string())]);
    assert_eq!(captures("a(b)", true, "ab-AB").len(), 2);
    assert_eq!(replace("a", false, "aaa", "b", true), "bbb");
    assert_eq!(replace("a", false, "aaa", "b", false), "baa");
    assert_eq!(replace("X", true, "axb", "$0$0", true), "axxb");
}

#[test]
fn grep_reports_lines_with_context() {
    let source = "alpha\nbeta\ngamma\ndelta\n";
    let found = grep_source(source, "^(beta|delta)$", false, 1).expect("pattern compiles");
    assert_eq!(found.len(), 2);
    assert_eq!(found[0].line_number, 2);
    assert_eq!(found[0].matched_line, "beta");
    assert_eq!(found[0].context_before, vec!["alpha".to_string()]);
    assert_eq!(found[0].context_after, vec!["gamma".to_string()]);
    assert_eq!(found[1].line_number, 4);
    assert!(found[1].context_after.is_empty());
    assert_eq!(grep_source(source, "BETA", true, 0).expect("compiles").len(), 1);
    let refused = grep_source(source, "(", false, 0);
    assert!(matches!(
        refused,
        Err(NeuroMcpError::InvalidArguments { ref message, .. }) if message.starts_with("invalid regex pattern: ")
    ));
}

#[test]
fn line_diff_compares_position_by_position() {
    assert_eq!(text_lines("a\r\nb\n"), vec!["a".to_string(), "b".to_string()]);
    assert_eq!(text_lines(""), Vec::<String>::new());
    let diff = generate_line_diff("old", "new", "x\ny\n", "x\nz\nw");
    assert!(!diff.equal);
    assert_eq!(diff.left, "old");
    assert_eq!(diff.right, "new");
    assert_eq!(diff.changed, 1);
    assert_eq!(diff.added, 1);
    assert_eq!(diff.removed, 0);
    assert_eq!(diff.changes.len(), 2);
    assert_eq!(diff.changes[0].line, 2);
    assert_eq!(diff.changes[0].kind, ChangeKind::Changed);
    assert_eq!(diff.changes[0].before.as_deref(), Some("y"));
    assert_eq!(diff.changes[0].after.as_deref(), Some("z"));
    assert_eq!(diff.changes[1].kind, ChangeKind::Added);
    assert_eq!(diff.changes[1].after.as_deref(), Some("w"));

    let removed = generate_line_diff("a", "b", "1\n2", "1");
    assert_eq!(removed.removed, 1);
    assert_eq!(removed.changes[0].kind, ChangeKind::Removed);
}

#[test]
fn line_diff_of_equal_lines_is_equal() {
    let diff = generate_line_diff("a", "b", "one\ntwo\n", "one\r\ntwo");
    assert!(diff.equal);
    assert!(diff.changes.is_empty());
    assert_eq!(diff.added + diff.removed + diff.changed, 0);
}

#[test]
fn abap_file_names() {
    let class_section = parse_abap_file_info("src/zcl_demo.testclasses.abap", "DeployFromFile")
        .expect("class section file");
    assert_eq!(class_section.object_type, "CLAS/OC");
    assert_eq!(class_section.object_name, "ZCL_DEMO");
    assert_eq!(class_section.include_type.as_deref(), Some("testclasses"));

    let module = parse_abap_file_info("zgrp.z_fm.fmod.abap", "DeployFromFile").expect("module file");
    assert_eq!(module.object_type, "FUGR/FF");
    assert_eq!(module.object_name, "Z_FM");
    assert_eq!(module.parent_name.as_deref(), Some("ZGRP"));

    let program = parse_abap_file_info("/tmp/z_report.prog.abap", "T").expect("program file");
    assert_eq!(program.object_type, "PROG/P");
    assert_eq!(program.object_name, "Z_REPORT");
    assert_eq!(program.parent_name, None);

    assert!(matches!(
        parse_abap_file_info("a.txt", "T"),
        Err(NeuroMcpError::InvalidArguments { ref message, .. }) if message == "file extension must be .abap"
    ));
    assert!(matches!(
        parse_abap_file_info("single.abap", "T"),
        Err(NeuroMcpError::InvalidArguments { ref message, .. })
            if message == "file name must follow <name>.<type>.abap or <class>.<include>.abap"
    ));
}

#[test]
fn table_fields_and_ddl() {
    let field = parse_table_field_spec(" mandt : abap.clnt : KEY : notnull ").expect("field");
    assert_eq!(field.name, "MANDT");
    assert_eq!(field.data_type, "abap.clnt");
    assert!(field.is_key);
    assert!(field.not_null);
    assert!(parse_table_field_spec("x").is_none());
    assert!(parse_table_field_spec("x::").is_none());

    let ddl = build_table_ddl(
        " ztab ",
        "It's",
        " a ",
        &[
            field,
            TableFieldDefinition {
                name: "TEXT".to_string(),
                data_type: "abap.char(10)".to_string(),
                is_key: false,
                not_null: false,
            },
        ],
    );
    assert_eq!(
        ddl,
        "@EndUserText.label : 'It''s'\n@AbapCatalog.tableCategory : #TRANSPARENT\n@AbapCatalog.deliveryClass : #A\n@AbapCatalog.dataMaintenance : #ALLOWED\ndefine table ZTAB {\n  key mandt : abap.clnt not null;\n  text : abap.char(10);\n}\n"
    );
}

#[test]
fn json_readings() {
    let payload = obj(vec![
        ("outer", obj(vec![("lockHandle", s("  H1 "))])),
        ("flag", s("yes")),
        ("count", JsonValue::Number("3".to_string())),
    ]);
    assert!(find_json_key(&payload, "lockHandle").is_some());
    assert!(find_json_key(&payload, "missing").is_none());
    assert_eq!(extract_json_string(&payload, &["missing", "lockHandle"]), Some("H1".to_string()));
    assert_eq!(extract_json_string(&payload, &["count"]), Some("3".to_string()));
    assert_eq!(parse_bool_value(&s("yes")), Some(true));
    assert_eq!(parse_bool_value(&JsonValue::Bool(false)), Some(false));
    assert_eq!(parse_bool_value(&s("maybe")), None);
    assert_eq!(extract_non_empty_string(&obj(vec![("a", s("  ")), ("b", s(" v "))]), &["a", "b"]), Some("v".to_string()));
}

#[test]
fn table_fields_from_arguments() {
    let fields = JsonValue::Array(vec![
        s("mandt:abap.clnt:key"),
        obj(vec![("name", s("text")), ("type", s("abap.char(10)"))]),
    ]);
    let parsed = parse_table_fields(Some(fields), Err("unused".to_string()), "CreateTable")
        .expect("fields parse");
    assert_eq!(parsed.len(), 2);
    assert_eq!(parsed[0].name, "MANDT");
    assert!(parsed[0].is_key);
    assert_eq!(parsed[1].name, "TEXT");
    assert_eq!(parsed[1].data_type, "abap.char(10)");

    assert!(parse_table_fields(None, Err("unused".to_string()), "CreateTable")
        .expect("no fields")
        .is_empty());
    let from_text = parse_table_fields(Some(s(" a:t ; ; b:u:pk ")), Err("unused".to_string()), "CreateTable")
        .expect("fields parse");
    assert_eq!(from_text.len(), 2);
    assert!(from_text[1].is_key);
    assert!(matches!(
        parse_table_fields(Some(JsonValue::Bool(true)), Err("unused".to_string()), "CreateTable"),
        Err(NeuroMcpError::InvalidArguments { ref message, .. }) if message == "fields must be array or string"
    ));
    let missing_type = parse_table_fields(
        Some(JsonValue::Array(vec![obj(vec![("name", s("f"))])])),
        Err("unused".to_string()),
        "CreateTable",
    );
    assert!(matches!(
        missing_type,
        Err(NeuroMcpError::InvalidArguments { ref message, .. }) if message == "field `f` is missing type"
    ));
}

#[test]
fn encoded_values_carry_no_delimiters() {
    let encoded = encode_path_segment("a/b?c#d&e=f g");
    assert_eq!(encoded, "a%2Fb%3Fc%23d%26e%3Df+g");
    for delimiter in ['/', '?', '#', '&', '=', ' '] {
        assert!(!encoded.contains(delimiter));
    }
    assert_eq!(encode_query_value("x=1&y=2"), "x%3D1%26y%3D2");
}

#[test]
fn escaped_text_holds_no_markup() {
    let escaped = escape_xml("<a href='x'>\"&\"</a>");
    assert_eq!(escaped, "&lt;a href=&apos;x&apos;&gt;&quot;&amp;&quot;&lt;/a&gt;");
    for markup in ['<', '>', '"', '\''] {
        assert!(!escaped.contains(markup));
    }
}

/// The path that the platform's `PathBuf::join` forms.
fn joined(base: &str, rel: &str) -> String {
    std::path::PathBuf::from(base).join(rel).to_string_lossy().into_owned()
}

#[test]
fn output_directories_are_joined_with_a_separator() {
    let path = resolve_output_path(Some(" exports ".to_string()), "CLAS/OC", "ZCL_A", "testclasses", false);
    assert!(
        path == "exports/zcl_a.testclasses.abap" || path == "exports\\zcl_a.testclasses.abap",
        "{path}"
    );
}

#[test]
fn export_file_names_parse_back_to_the_object() {
    let class_name = default_export_filename("clas", "zcl_a", "testclasses");
    let class_info = parse_abap_file_info(&class_name, "T").expect("class file");
    assert_eq!(class_info.object_type, "CLAS/OC");
    assert_eq!(class_info.object_name, "ZCL_A");
    assert_eq!(class_info.parent_name, None);
    assert_eq!(class_info.include_type.as_deref(), Some("testclasses"));

    let main_name = default_export_filename("CLAS/OC", "ZCL_A", "main");
    let main_info = parse_abap_file_info(&main_name, "T").expect("class main file");
    assert_eq!(main_info.object_type, "CLAS/OC");
    assert_eq!(main_info.include_type, None);

    let prog_name = default_export_filename("PROG", "z_report", "main");
    let prog_info = parse_abap_file_info(&prog_name, "T").expect("program file");
    assert_eq!(prog_info.object_type, "PROG/P");
    assert_eq!(prog_info.object_name, "Z_REPORT");
    assert_eq!(prog_info.include_type, None);
}

#[test]
fn source_uris_ignore_case_and_blanks() {
    assert_eq!(
        resolve_source_uri("prog", " zp ", None, None),
        resolve_source_uri("PROG/P", "ZP", None, None)
    );
    let uri = resolve_source_uri("clas/oc", " zcl_x ", None, Some("testclasses")).expect("class uri");
    assert_eq!(uri, resolve_source_uri("CLAS/OC", "ZCL_X", None, Some("testclasses")).unwrap());
    assert!(uri.starts_with("/sap/bc/adt/"));
    assert!(uri.ends_with("/source/main") || uri.contains("/includes/"));
}

#[test]
fn every_source_type_has_a_source_uri() {
    for t in ["PROG/P", "CLAS/OC", "INTF/OI", "FUGR/FF", " clas/oc ", "DDLS/DF"] {
        if is_source_object_type(t) {
            assert!(resolve_source_uri(t, "ZX", Some("ZGRP"), None).is_some(), "{t}");
        }
    }
    assert!(is_source_object_type(" clas/oc "));
    assert!(!is_source_object_type("DEVC/K"));
}

#[test]
fn trace_ids_normalize_to_a_bare_segment() {
    let id = normalize_trace_id(" /sap/bc/adt/runtime/traces/abaptraces/ABC123/ ");
    assert_eq!(id, "ABC123");
    assert_eq!(normalize_trace_id(&id), id);
    let dump = normalize_dump_id("/sap/bc/adt/runtime/dump/D1 ");
    assert!(!dump.contains('/'));
    assert_eq!(normalize_dump_id(&dump), dump);
}

#[test]
fn creatable_types_normalize_to_themselves() {
    assert_eq!(normalize_creatable_type(" report "), Some("PROG/P"));
    assert_eq!(normalize_creatable_type("function"), Some("FUGR/FF"));
    assert_eq!(normalize_creatable_type("TABL"), None);
    for raw in ["report", "class", "function", "interface", "PROG/P"] {
        let c = normalize_creatable_type(raw).expect("creatable");
        assert_eq!(normalize_creatable_type(c), Some(c));
        assert!(!build_object_url(c, "ZX", Some("ZGRP")).is_empty(), "{c}");
    }
}

#[test]
fn object_urls_follow_the_type_table() {
    assert_eq!(build_object_url("DDLS/DF", "Z_VIEW", None), "/sap/bc/adt/ddic/ddl/sources/z_view");
    assert_eq!(build_object_url("TABL/DT", "ZTAB", None), "");
}

#[test]
fn plain_text_escapes_to_itself() {
    assert_eq!(escape_xml("plain text 123"), "plain text 123");
    assert_eq!(escape_xml("a<b>&\"'"), "a&lt;b&gt;&amp;&quot;&apos;");
}

#[test]
fn escaped_text_unescapes_to_itself() {
    let unescape = |x: &str| {
        x.replace("&lt;", "<")
            .replace("&gt;", ">")
            .replace("&quot;", "\"")
            .replace("&apos;", "'")
            .replace("&amp;", "&")
    };
    for s in ["a<b>&\"'", "&lt; already", "&amp;amp;", "", "x && y"] {
        assert_eq!(unescape(&escape_xml(s)), s);
    }
}

#[test]
fn output_directory_ending_in_a_slash_gets_no_second_separator() {
    let path = resolve_output_path(Some("out/".to_string()), "PROG/P", "ZP", "", false);
    assert_eq!(path, "out/zp.prog.abap");
}

#[test]
fn namespaced_default_names_replace_the_output_directory() {
    let path = resolve_output_path(Some("out".to_string()), "CLAS/OC", "/NS/ZCL_X", "main", false);
    assert_eq!(path, "/ns/zcl_x.clas.abap");
    assert_eq!(path, joined("out", "/ns/zcl_x.clas.abap"));
}

#[test]
fn export_file_names_with_a_later_colon_parse_back() {
    let name = default_export_filename("PROG", "zab:c", "main");
    assert_eq!(name, "zab:c.prog.abap");
    let info = parse_abap_file_info(&name, "T").expect("program file");
    assert_eq!(info.object_type, "PROG/P");
    assert_eq!(info.object_name, "ZAB:C");
}
