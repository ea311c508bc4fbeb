use neuro_runtime::errors::NeuroMcpError;
use neuro_runtime::mcp::create::{plan_create_object, resolve_create_object_type_info, CreateObjectArgs};

fn refused_with<T: std::fmt::Debug>(result: Result<T, NeuroMcpError>, expected: &str) -> bool {
    matches!(result, Err(NeuroMcpError::InvalidArguments { ref message, .. }) if message == expected)
}

fn s(text: &str) -> Option<String> {
    Some(text.to_owned())
}

fn args(object_type: Option<&str>, name: Option<&str>, description: Option<&str>, package: Option<&str>) -> CreateObjectArgs {
    CreateObjectArgs {
        object_type: object_type.map(str::to_owned),
        name: name.map(str::to_owned),
        description: description.map(str::to_owned),
        package_name: package.map(str::to_owned),
        transport: None,
        parent_name: None,
        responsible: None,
        software_component: None,
        service_definition: None,
        binding_type: None,
        binding_version: None,
        binding_category: None,
    }
}

#[test]
fn program_creation_plan() {
    let mut a = args(Some(" prog/p "), Some("ztest"), Some(" Test & demo "), Some("ztmp"));
    a.transport = s(" K900001 ");
    let plan = plan_create_object(&a, s("dev"), "CreateObject").unwrap();
    assert_eq!(plan.object_type, "PROG/P");
    assert_eq!(plan.name, "ZTEST");
    assert_eq!(plan.endpoint, "/sap/bc/adt/programs/programs?corrNr=K900001");
    assert_eq!(plan.content_type, "application/*");
    assert_eq!(plan.object_url, "/sap/bc/adt/programs/programs/ZTEST");
    assert_eq!(
        plan.body,
        "<?xml version=\"1.0\" encoding=\"UTF-8\"?>\n<program:abapProgram xmlns:program=\"http://www.sap.com/adt/programs/programs\" xmlns:adtcore=\"http://www.sap.com/adt/core\"\n  adtcore:description=\"Test &amp; demo\"\n  adtcore:name=\"ZTEST\"\n  adtcore:type=\"PROG/P\"\n  adtcore:responsible=\"DEV\">\n  <adtcore:packageRef adtcore:name=\"ZTMP\"/>\n</program:abapProgram>"
    );
}

#[test]
fn function_modules_are_created_in_their_group() {
    let mut a = args(Some("FUGR/FF"), Some("z_fm"), Some("d"), Some("ZTMP"));
    a.parent_name = s(" zgrp ");
    a.responsible = s("ann");
    let plan = plan_create_object(&a, s("dev"), "CreateObject").unwrap();
    assert_eq!(plan.endpoint, "/sap/bc/adt/functions/groups/ZGRP/fmodules");
    assert_eq!(plan.object_url, "/sap/bc/adt/functions/groups/ZGRP/fmodules/Z_FM");
    assert_eq!(
        plan.body,
        "<?xml version=\"1.0\" encoding=\"UTF-8\"?>\n<fmodule:abapFunctionModule xmlns:fmodule=\"http://www.sap.com/adt/functions/fmodules\" xmlns:adtcore=\"http://www.sap.com/adt/core\"\n  adtcore:description=\"d\"\n  adtcore:name=\"Z_FM\"\n  adtcore:type=\"FUGR/FF\"\n  adtcore:responsible=\"ANN\">\n  <adtcore:containerRef adtcore:name=\"ZGRP\" adtcore:type=\"FUGR/F\"\n    adtcore:uri=\"/sap/bc/adt/functions/groups/zgrp\"/>\n</fmodule:abapFunctionModule>"
    );
    assert!(refused_with(
        plan_create_object(&args(Some("FUGR/FF"), Some("z_fm"), Some("d"), Some("ZTMP")), None, "CreateObject"),
        "unsupported object_type `FUGR/FF` or missing required parent_name"
    ));
}

#[test]
fn local_packages_belong_to_the_local_component() {
    let plan = plan_create_object(&args(Some("DEVC/K"), Some("$ztmp"), Some("scratch"), None), None, "CreatePackage").unwrap();
    assert_eq!(plan.endpoint, "/sap/bc/adt/packages");
    assert_eq!(plan.object_url, "/sap/bc/adt/packages/%24ZTMP");
    assert_eq!(
        plan.body,
        "<?xml version=\"1.0\" encoding=\"UTF-8\"?>\n<pack:package xmlns:pack=\"http://www.sap.com/adt/packages\" xmlns:adtcore=\"http://www.sap.com/adt/core\"\n  adtcore:description=\"scratch\"\n  adtcore:name=\"$ZTMP\"\n  adtcore:type=\"DEVC/K\"\n  adtcore:responsible=\"DDIC\">\n  <pack:attributes pack:packageType=\"development\"/>\n  <pack:superPackage adtcore:name=\"\" adtcore:type=\"DEVC/K\"/>\n  <pack:applicationComponent/>\n  <pack:transport>\n    <pack:softwareComponent pack:name=\"LOCAL\"/>\n    <pack:transportLayer pack:name=\"\"/>\n  </pack:transport>\n  <pack:translation/>\n  <pack:useAccesses/>\n  <pack:packageInterfaces/>\n  <pack:subPackages/>\n</pack:package>"
    );
    let mut shipped = args(Some("DEVC/K"), Some("zpkg"), Some("d"), Some("zparent"));
    shipped.software_component = s("home");
    shipped.responsible = s("  ");
    let plan = plan_create_object(&shipped, s("dev"), "CreatePackage").unwrap();
    assert!(plan.body.contains("<pack:softwareComponent pack:name=\"HOME\"/>"));
    assert!(plan.body.contains("<pack:superPackage adtcore:name=\"ZPARENT\" adtcore:type=\"DEVC/K\"/>"));
    assert!(plan.body.contains("adtcore:responsible=\"DDIC\""));
}

#[test]
fn service_bindings_get_their_defaults() {
    let mut a = args(Some("SRVB/SVB"), Some("zsb_demo"), Some("d"), Some("ZTMP"));
    a.service_definition = s("zsd_demo");
    let plan = plan_create_object(&a, None, "CreateObject").unwrap();
    assert_eq!(plan.endpoint, "/sap/bc/adt/businessservices/bindings");
    assert_eq!(plan.object_url, "/sap/bc/adt/businessservices/bindings/zsb_demo");
    assert!(plan.body.contains("<srvb:services srvb:name=\"ZSB_DEMO\">"));
    assert!(plan.body.contains("<srvb:serviceDefinition adtcore:name=\"ZSD_DEMO\"/>"));
    assert!(plan.body.contains("<srvb:binding srvb:category=\"0\" srvb:type=\"ODATA\" srvb:version=\"V2\">"));

    let behavior = plan_create_object(&args(Some("BDEF/BDO"), Some("ZI_A"), Some("d"), Some("ZTMP")), None, "CreateObject").unwrap();
    assert_eq!(behavior.content_type, "application/vnd.sap.adt.blues.v1+xml");
    assert_eq!(behavior.object_url, "/sap/bc/adt/bo/behaviordefinitions/zi_a");
    assert!(behavior.body.starts_with("<?xml version=\"1.0\" encoding=\"UTF-8\"?>\n<blue:blueSource xmlns:blue=\"http://www.sap.com/wbobj/blue\""));

    let ddl = plan_create_object(&args(Some("DDLS/DF"), Some("ZI_VIEW"), Some("d"), Some("ZTMP")), None, "CreateObject").unwrap();
    assert_eq!(ddl.object_url, "/sap/bc/adt/ddic/ddl/sources/zi_view");
}

#[test]
fn creation_refusals() {
    assert!(refused_with(
        plan_create_object(&args(None, Some("Z"), Some("d"), Some("P")), None, "CreateObject"),
        "objectType/object_type is required"
    ));
    assert!(refused_with(
        plan_create_object(&args(Some("PROG/P"), None, Some("d"), Some("P")), None, "CreateObject"),
        "name is required"
    ));
    assert!(refused_with(
        plan_create_object(&args(Some("PROG/P"), Some("Z"), None, Some("P")), None, "CreateObject"),
        "description is required"
    ));
    assert!(refused_with(
        plan_create_object(&args(Some("PROG/P"), Some("Z"), Some("d"), Some("  ")), None, "CreateObject"),
        "packageName/package_name is required"
    ));
    assert!(refused_with(
        plan_create_object(&args(Some("tabl/dt"), Some("Z"), Some("d"), Some("P")), None, "CreateObject"),
        "unsupported object_type `TABL/DT` or missing required parent_name"
    ));
    assert!(resolve_create_object_type_info("CLAS/OC", None).is_some());
    assert!(resolve_create_object_type_info("FUGR/FF", None).is_none());
    assert_eq!(
        resolve_create_object_type_info("FUGR/FF", Some("zgrp")).unwrap().creation_path,
        "/sap/bc/adt/functions/groups/ZGRP/fmodules"
    );
}
