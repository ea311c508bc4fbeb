use neuro_runtime::errors::NeuroMcpError;
use neuro_runtime::mcp::activation::{activation_order, package_activation_request};
use neuro_runtime::mcp::classinfo::{class_info_requests, summarize_class, ClassCategory};
use neuro_runtime::mcp::requests::HttpMethod;
use neuro_runtime::mcp::setup::{
    abap_git_plan, binding_request, freestyle_request, package_args, system_info_queries,
    type_hierarchy_request, vsp_package,
};
use neuro_runtime::mcp::xmltext::XmlReference;

fn refused_with<T: std::fmt::Debug>(result: Result<T, NeuroMcpError>, expected: &str) -> bool {
    matches!(result, Err(NeuroMcpError::InvalidArguments { ref message, .. }) if message == expected)
}

fn s(text: &str) -> Option<String> {
    Some(text.to_owned())
}

fn reference(name: &str, object_type: &str, uri: &str, parent: Option<&str>) -> XmlReference {
    XmlReference {
        name: name.to_owned(),
        object_type: object_type.to_owned(),
        uri: uri.to_owned(),
        parent_uri: parent.map(str::to_owned),
    }
}

fn names(refs: &[XmlReference]) -> Vec<&str> {
    refs.iter().map(|r| r.name.as_str()).collect()
}

#[test]
fn local_packages_need_no_transport() {
    let args = package_args(s("$ZTMP"), s("scratch"), None, None, None, "CreatePackage").unwrap();
    assert_eq!(args.object_type.as_deref(), Some("DEVC/K"));
    assert_eq!(args.name.as_deref(), Some("$ZTMP"));
    assert_eq!(args.package_name.as_deref(), Some(""));
    assert_eq!(args.transport, None);

    let shipped = package_args(s("ZPKG"), s("d"), s("ZPARENT"), s("K1"), s("HOME"), "CreatePackage").unwrap();
    assert_eq!(shipped.package_name.as_deref(), Some("ZPARENT"));
    assert_eq!(shipped.transport.as_deref(), Some("K1"));
    assert_eq!(shipped.software_component.as_deref(), Some("HOME"));
    assert!(refused_with(
        package_args(s("ZPKG"), s("d"), None, s("  "), None, "CreatePackage"),
        "transport is required for transportable packages (non-$ packages)"
    ));
    assert!(refused_with(package_args(None, s("d"), None, None, None, "CreatePackage"), "name is required"));
    assert!(refused_with(package_args(s("Z"), None, None, None, None, "CreatePackage"), "description is required"));
}

#[test]
fn service_binding_publication() {
    let (publish, version) = binding_request(true, s("ZSB"), None, "PublishServiceBinding").unwrap();
    assert_eq!(version, "0001");
    assert_eq!(publish.method, HttpMethod::Post);
    assert_eq!(
        publish.path,
        "/sap/bc/adt/businessservices/odatav2/publishjobs?servicename=ZSB&serviceversion=0001"
    );
    assert_eq!(
        publish.body.as_deref(),
        Some("<adtcore:objectReferences xmlns:adtcore=\"http://www.sap.com/adt/core\">\n  <adtcore:objectReference adtcore:name=\"ZSB\"/>\n</adtcore:objectReferences>")
    );
    let (unpublish, _) = binding_request(false, s("ZSB"), s("0002"), "UnpublishServiceBinding").unwrap();
    assert_eq!(
        unpublish.path,
        "/sap/bc/adt/businessservices/odatav2/unpublishjobs?servicename=ZSB&serviceversion=0002"
    );
    assert!(refused_with(
        binding_request(true, None, None, "PublishServiceBinding"),
        "serviceName/service_name is required"
    ));
}

#[test]
fn system_information_queries() {
    let queries = system_info_queries(" 100 ");
    assert_eq!(queries.len(), 4);
    assert_eq!(queries[0], "SELECT MANDT, MTEXT, LOGSYS FROM T000 WHERE MANDT = '100'");
    assert_eq!(queries[1], "SELECT RELEASE, EXTRELEASE FROM CVERS WHERE COMPONENT = 'SAP_BASIS'");
    assert_eq!(queries[3], "SELECT RELEASE FROM CVERS WHERE COMPONENT LIKE '%HDB%' OR COMPONENT LIKE '%HANA%'");
    assert_eq!(system_info_queries("")[0], "SELECT MANDT, MTEXT, LOGSYS FROM T000");

    let request = freestyle_request("SELECT 1 FROM T000");
    assert_eq!(request.path, "/sap/bc/adt/datapreview/freestyle?rowNumber=1");
    assert_eq!(request.body.as_deref(), Some("SELECT 1 FROM T000"));
    assert_eq!(request.accept.as_deref(), Some("application/*"));
}

#[test]
fn type_hierarchy_direction() {
    let (request, line, column, kind) =
        type_hierarchy_request(s("/src"), s("code"), Some(0), Some(4), None, "GetTypeHierarchy").unwrap();
    assert_eq!((line, column, kind), (1, 4, "subTypes"));
    assert_eq!(request.path, "/sap/bc/adt/abapsource/typehierarchy?uri=%2Fsrc%23start%3D1%2C4&type=subTypes");
    assert_eq!(request.body.as_deref(), Some("code"));
    let (_, _, _, kind) =
        type_hierarchy_request(s("/src"), s("c"), Some(2), Some(2), Some(true), "GetTypeHierarchy").unwrap();
    assert_eq!(kind, "superTypes");
    assert!(refused_with(
        type_hierarchy_request(s("/src"), s("c"), Some(1), None, None, "GetTypeHierarchy"),
        "column is required"
    ));
    assert!(refused_with(
        type_hierarchy_request(None, None, None, None, None, "GetTypeHierarchy"),
        "source_url is required"
    ));
}

#[test]
fn installation_plans() {
    assert_eq!(
        abap_git_plan(None, None, "InstallAbapGit").unwrap(),
        ("standalone".to_owned(), "$ABAPGIT".to_owned())
    );
    assert_eq!(
        abap_git_plan(s("DEV"), None, "InstallAbapGit").unwrap(),
        ("dev".to_owned(), "$ZGIT_DEV".to_owned())
    );
    assert_eq!(abap_git_plan(s("dev"), s("$mine"), "InstallAbapGit").unwrap().1, "$MINE");
    assert!(refused_with(abap_git_plan(s("full"), None, "InstallAbapGit"), "edition must be 'standalone' or 'dev'"));

    assert_eq!(vsp_package(None, "InstallZADTVSP").unwrap(), "$ZADT_VSP");
    assert_eq!(vsp_package(s("$tools"), "InstallZADTVSP").unwrap(), "$TOOLS");
    assert!(refused_with(vsp_package(s("ZTOOLS"), "InstallZADTVSP"), "package must start with $ for local installation"));
}

#[test]
fn inactive_objects_activate_in_dependency_order() {
    let refs = vec![
        reference("A", "CLAS/OC", "/a", Some("/sap/bc/adt/packages/zp")),
        reference("B", "DTEL/DE", "/b", Some("/SAP/BC/ADT/PACKAGES/ZP")),
        reference("C", "PROG/P", "", Some("/sap/bc/adt/packages/zp")),
        reference("D", "TABL/DT", "/d", Some("/sap/bc/adt/packages/other")),
        reference("E", " clas/oc ", "/e", Some("/sap/bc/adt/packages/zp")),
        reference("F", "XSLT/VT", "/f", None),
    ];
    assert_eq!(names(&activation_order(&refs, s(" zp "), None)), vec!["B", "A", "E"]);
    assert_eq!(names(&activation_order(&refs, s("zp"), Some(2))), vec!["B", "A"]);
    assert_eq!(names(&activation_order(&refs, None, Some(0))), vec!["B"]);
    assert_eq!(names(&activation_order(&refs, s(""), None)), vec!["B", "D", "A", "E", "F"]);

    let request = package_activation_request(&reference("Z&1", "PROG/P", "/p", None));
    assert_eq!(request.method, HttpMethod::Post);
    assert_eq!(request.path, "/sap/bc/adt/activation?method=activate&preauditRequested=true");
    assert_eq!(request.content_type.as_deref(), Some("application/xml"));
    assert_eq!(request.accept, None);
    assert_eq!(
        request.body.as_deref(),
        Some("<?xml version=\"1.0\" encoding=\"UTF-8\"?>\n<adtcore:objectReferences xmlns:adtcore=\"http://www.sap.com/adt/core\">\n  <adtcore:objectReference adtcore:uri=\"/p\" adtcore:name=\"Z&amp;1\"/>\n</adtcore:objectReferences>")
    );
}

#[test]
fn class_summary_sorts_and_classifies() {
    let refs = vec![
        reference("RUN", "CLAS/OM METHOD", "/m1", None),
        reference("ALPHA", "method", "/m2", None),
        reference("RUN", "METHOD", "/m3", None),
        reference("MV_X", "CLAS/OA ATTR", "/a", None),
        reference("ZIF_A", "INTF/OI", "/i", None),
        reference("LTC", "TESTCLASS", "/t", None),
    ];
    let summary = summarize_class(&refs, "class zcl definition final create public.");
    assert_eq!(summary.category, ClassCategory::Final);
    assert!(summary.has_test_class);
    assert_eq!(summary.methods, vec!["ALPHA".to_owned(), "RUN".to_owned()]);
    assert_eq!(summary.attributes, vec!["MV_X".to_owned()]);
    assert_eq!(summary.interfaces, vec!["ZIF_A".to_owned()]);

    let abstract_class = summarize_class(&vec![], "CLASS zcl DEFINITION ABSTRACT FINAL.");
    assert_eq!(abstract_class.category, ClassCategory::Abstract);
    assert!(!abstract_class.has_test_class);
    let regular = summarize_class(&vec![], "CLASS zcl DEFINITION PUBLIC FINAL.");
    assert_eq!(regular.category, ClassCategory::Regular);

    let (structure, source, name) = class_info_requests(s(" zcl_a "), "GetClassInfo").unwrap();
    assert_eq!(name, "ZCL_A");
    assert_eq!(structure.path, "/sap/bc/adt/cai/objectexplorer/objects?objectName=ZCL_A&maxResults=100");
    assert_eq!(source.path, "/sap/bc/adt/oo/classes/ZCL_A/source/main");
    assert_eq!(source.accept.as_deref(), Some("text/plain"));
    assert!(refused_with(class_info_requests(None, "GetClassInfo"), "class_name/className/name is required"));
}
