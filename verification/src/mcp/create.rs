//! Creating repository objects: the creation endpoint of each type and the
//! XML body that announces a new object.
use vstd::prelude::*;

use crate::errors::NeuroMcpError;
use crate::mcp::encode::{encode_path_segment, form_byte_unchanged, form_encode_pairs, lemma_form_encode_plain};
use crate::mcp::paths::{
    build_object_url, build_path_with_query, enc, lemma_canon_unchanged, opt_str, spec_normalize_creatable_type,
    spec_object_url,
};
use crate::mcp::xmltext::{escape_xml, spec_escape_xml};
use crate::text::{
    append, concat, has_prefix, lower_seq, owned, str_eq, to_lower, to_upper, trim, trim_seq, upper_seq,
};
use crate::xml::opt_text;

verus! {

/// What a tool call gives to describe a new object; every field may be
/// missing.
#[derive(Clone, Debug, Default)]
pub struct CreateObjectArgs {
    pub object_type: Option<String>,
    pub name: Option<String>,
    pub description: Option<String>,
    pub package_name: Option<String>,
    pub transport: Option<String>,
    pub parent_name: Option<String>,
    pub responsible: Option<String>,
    pub software_component: Option<String>,
    pub service_definition: Option<String>,
    pub binding_type: Option<String>,
    pub binding_version: Option<String>,
    pub binding_category: Option<String>,
}

/// How objects of one type are created: the collection to post to, the
/// root element and namespace of the body, and the body's content type.
#[derive(Clone, Debug)]
pub struct CreateObjectTypeInfo {
    pub creation_path: String,
    pub root_name: &'static str,
    pub namespace: &'static str,
    pub content_type: &'static str,
}

/// A creation description as text values: path, root, namespace, content
/// type.
pub type TypeInfoView = (Seq<char>, Seq<char>, Seq<char>, Seq<char>);

/// A creation description as text values.
pub open spec fn type_info_view(i: CreateObjectTypeInfo) -> TypeInfoView {
    (i.creation_path@, i.root_name@, i.namespace@, i.content_type@)
}

/// How objects of a (long) type are created; a function module is created
/// under its upper-cased group, which must be given. `None` for a type
/// that cannot be created.
pub open spec fn spec_type_info(object_type: Seq<char>, parent_name: Option<Seq<char>>) -> Option<
    TypeInfoView,
> {
    if object_type == "PROG/P"@ {
        Some(("/sap/bc/adt/programs/programs"@, "program:abapProgram"@, "xmlns:program=\"http://www.sap.com/adt/programs/programs\""@, "application/*"@))
    } else if object_type == "PROG/I"@ {
        Some(("/sap/bc/adt/programs/includes"@, "include:abapInclude"@, "xmlns:include=\"http://www.sap.com/adt/programs/includes\""@, "application/*"@))
    } else if object_type == "CLAS/OC"@ {
        Some(("/sap/bc/adt/oo/classes"@, "class:abapClass"@, "xmlns:class=\"http://www.sap.com/adt/oo/classes\""@, "application/*"@))
    } else if object_type == "INTF/OI"@ {
        Some(("/sap/bc/adt/oo/interfaces"@, "intf:abapInterface"@, "xmlns:intf=\"http://www.sap.com/adt/oo/interfaces\""@, "application/*"@))
    } else if object_type == "FUGR/F"@ {
        Some(("/sap/bc/adt/functions/groups"@, "group:abapFunctionGroup"@, "xmlns:group=\"http://www.sap.com/adt/functions/groups\""@, "application/*"@))
    } else if object_type == "FUGR/FF"@ {
        match parent_name {
            Some(p) => Some(("/sap/bc/adt/functions/groups/"@ + enc(upper_seq(p)) + "/fmodules"@, "fmodule:abapFunctionModule"@, "xmlns:fmodule=\"http://www.sap.com/adt/functions/fmodules\""@, "application/*"@)),
            None => None,
        }
    } else if object_type == "DEVC/K"@ {
        Some(("/sap/bc/adt/packages"@, "pack:package"@, "xmlns:pack=\"http://www.sap.com/adt/packages\""@, "application/*"@))
    } else if object_type == "DDLS/DF"@ {
        Some(("/sap/bc/adt/ddic/ddl/sources"@, "ddl:ddlSource"@, "xmlns:ddl=\"http://www.sap.com/adt/ddic/ddlsources\""@, "application/*"@))
    } else if object_type == "BDEF/BDO"@ {
        Some(("/sap/bc/adt/bo/behaviordefinitions"@, "bdef:behaviorDefinition"@, "xmlns:bdef=\"http://www.sap.com/adt/bo/behaviordefinitions\""@, "application/vnd.sap.adt.blues.v1+xml"@))
    } else if object_type == "SRVD/SRV"@ {
        Some(("/sap/bc/adt/ddic/srvd/sources"@, "srvd:srvdSource"@, "xmlns:srvd=\"http://www.sap.com/adt/ddic/srvdsources\""@, "application/*"@))
    } else if object_type == "SRVB/SVB"@ {
        Some(("/sap/bc/adt/businessservices/bindings"@, "srvb:serviceBinding"@, "xmlns:srvb=\"http://www.sap.com/adt/ddic/ServiceBindings\""@, "application/*"@))
    } else {
        None
    }
}

/// How objects of a type are created.
pub fn resolve_create_object_type_info(object_type: &str, parent_name: Option<&str>) -> (r: Option<
    CreateObjectTypeInfo,
>)
    ensures
        match r {
            Some(i) => spec_type_info(object_type@, opt_str(parent_name)) == Some(type_info_view(i)),
            None => spec_type_info(object_type@, opt_str(parent_name)) is None,
        },
{
    let (creation_path, root_name, namespace, content_type): (String, &'static str, &'static str, &'static str) =
    if str_eq(object_type, "PROG/P") {
        (owned("/sap/bc/adt/programs/programs"), "program:abapProgram", "xmlns:program=\"http://www.sap.com/adt/programs/programs\"", "application/*")
    } else if str_eq(object_type, "PROG/I") {
        (owned("/sap/bc/adt/programs/includes"), "include:abapInclude", "xmlns:include=\"http://www.sap.com/adt/programs/includes\"", "application/*")
    } else if str_eq(object_type, "CLAS/OC") {
        (owned("/sap/bc/adt/oo/classes"), "class:abapClass", "xmlns:class=\"http://www.sap.com/adt/oo/classes\"", "application/*")
    } else if str_eq(object_type, "INTF/OI") {
        (owned("/sap/bc/adt/oo/interfaces"), "intf:abapInterface", "xmlns:intf=\"http://www.sap.com/adt/oo/interfaces\"", "application/*")
    } else if str_eq(object_type, "FUGR/F") {
        (owned("/sap/bc/adt/functions/groups"), "group:abapFunctionGroup", "xmlns:group=\"http://www.sap.com/adt/functions/groups\"", "application/*")
    } else if str_eq(object_type, "FUGR/FF") {
        let p = match parent_name {
            Some(p) => p,
            None => {
                return None;
            },
        };
        let mut path = owned("/sap/bc/adt/functions/groups/");
        let group = encode_path_segment(to_upper(p).as_str());
        append(&mut path, group.as_str());
        append(&mut path, "/fmodules");
        (path, "fmodule:abapFunctionModule", "xmlns:fmodule=\"http://www.sap.com/adt/functions/fmodules\"", "application/*")
    } else if str_eq(object_type, "DEVC/K") {
        (owned("/sap/bc/adt/packages"), "pack:package", "xmlns:pack=\"http://www.sap.com/adt/packages\"", "application/*")
    } else if str_eq(object_type, "DDLS/DF") {
        (owned("/sap/bc/adt/ddic/ddl/sources"), "ddl:ddlSource", "xmlns:ddl=\"http://www.sap.com/adt/ddic/ddlsources\"", "application/*")
    } else if str_eq(object_type, "BDEF/BDO") {
        (owned("/sap/bc/adt/bo/behaviordefinitions"), "bdef:behaviorDefinition", "xmlns:bdef=\"http://www.sap.com/adt/bo/behaviordefinitions\"", "application/vnd.sap.adt.blues.v1+xml")
    } else if str_eq(object_type, "SRVD/SRV") {
        (owned("/sap/bc/adt/ddic/srvd/sources"), "srvd:srvdSource", "xmlns:srvd=\"http://www.sap.com/adt/ddic/srvdsources\"", "application/*")
    } else if str_eq(object_type, "SRVB/SVB") {
        (owned("/sap/bc/adt/businessservices/bindings"), "srvb:serviceBinding", "xmlns:srvb=\"http://www.sap.com/adt/ddic/ServiceBindings\"", "application/*")
    } else {
        return None;
    };
    Some(CreateObjectTypeInfo { creation_path, root_name, namespace, content_type })
}

/// The creation body of a package: its super-package and software component.
pub open spec fn spec_package_body(root: Seq<char>, namespace: Seq<char>, description: Seq<char>, name: Seq<char>, object_type: Seq<char>, responsible: Seq<char>, package_name: Seq<char>, software_component: Seq<char>) -> Seq<char> {
    "<?xml version=\"1.0\" encoding=\"UTF-8\"?>\n<"@
        + root
        + " "@
        + namespace
        + " xmlns:adtcore=\"http://www.sap.com/adt/core\"\n  adtcore:description=\""@
        + spec_escape_xml(description)
        + "\"\n  adtcore:name=\""@
        + spec_escape_xml(name)
        + "\"\n  adtcore:type=\""@
        + object_type
        + "\"\n  adtcore:responsible=\""@
        + spec_escape_xml(responsible)
        + "\">\n  <pack:attributes pack:packageType=\"development\"/>\n  <pack:superPackage adtcore:name=\""@
        + spec_escape_xml(package_name)
        + "\" adtcore:type=\"DEVC/K\"/>\n  <pack:applicationComponent/>\n  <pack:transport>\n    <pack:softwareComponent pack:name=\""@
        + spec_escape_xml(software_component)
        + "\"/>\n    <pack:transportLayer pack:name=\"\"/>\n  </pack:transport>\n  <pack:translation/>\n  <pack:useAccesses/>\n  <pack:packageInterfaces/>\n  <pack:subPackages/>\n</"@
        + root
        + ">"@
}

/// The creation body of a package: its super-package and software component.
fn package_body(root: &str, namespace: &str, description: &str, name: &str, object_type: &str, responsible: &str, package_name: &str, software_component: &str) -> (r: String)
    ensures
        r@ == spec_package_body(root@, namespace@, description@, name@, object_type@, responsible@, package_name@, software_component@),
{
    let mut r = owned("<?xml version=\"1.0\" encoding=\"UTF-8\"?>\n<");
    append(&mut r, root);
    append(&mut r, " ");
    append(&mut r, namespace);
    append(&mut r, " xmlns:adtcore=\"http://www.sap.com/adt/core\"\n  adtcore:description=\"");
    let piece = escape_xml(description);
    append(&mut r, piece.as_str());
    append(&mut r, "\"\n  adtcore:name=\"");
    let piece = escape_xml(name);
    append(&mut r, piece.as_str());
    append(&mut r, "\"\n  adtcore:type=\"");
    append(&mut r, object_type);
    append(&mut r, "\"\n  adtcore:responsible=\"");
    let piece = escape_xml(responsible);
    append(&mut r, piece.as_str());
    append(&mut r, "\">\n  <pack:attributes pack:packageType=\"development\"/>\n  <pack:superPackage adtcore:name=\"");
    let piece = escape_xml(package_name);
    append(&mut r, piece.as_str());
    append(&mut r, "\" adtcore:type=\"DEVC/K\"/>\n  <pack:applicationComponent/>\n  <pack:transport>\n    <pack:softwareComponent pack:name=\"");
    let piece = escape_xml(software_component);
    append(&mut r, piece.as_str());
    append(&mut r, "\"/>\n    <pack:transportLayer pack:name=\"\"/>\n  </pack:transport>\n  <pack:translation/>\n  <pack:useAccesses/>\n  <pack:packageInterfaces/>\n  <pack:subPackages/>\n</");
    append(&mut r, root);
    append(&mut r, ">");
    assert(r@ =~= spec_package_body(root@, namespace@, description@, name@, object_type@, responsible@, package_name@, software_component@));
    r
}

/// The creation body of a function module: its function group as container.
pub open spec fn spec_function_module_body(root: Seq<char>, namespace: Seq<char>, description: Seq<char>, name: Seq<char>, object_type: Seq<char>, responsible: Seq<char>, parent_name: Seq<char>) -> Seq<char> {
    "<?xml version=\"1.0\" encoding=\"UTF-8\"?>\n<"@
        + root
        + " "@
        + namespace
        + " xmlns:adtcore=\"http://www.sap.com/adt/core\"\n  adtcore:description=\""@
        + spec_escape_xml(description)
        + "\"\n  adtcore:name=\""@
        + spec_escape_xml(name)
        + "\"\n  adtcore:type=\""@
        + object_type
        + "\"\n  adtcore:responsible=\""@
        + spec_escape_xml(responsible)
        + "\">\n  <adtcore:containerRef adtcore:name=\""@
        + spec_escape_xml(parent_name)
        + "\" adtcore:type=\"FUGR/F\"\n    adtcore:uri=\"/sap/bc/adt/functions/groups/"@
        + enc(lower_seq(parent_name))
        + "\"/>\n</"@
        + root
        + ">"@
}

/// The creation body of a function module: its function group as container.
fn function_module_body(root: &str, namespace: &str, description: &str, name: &str, object_type: &str, responsible: &str, parent_name: &str) -> (r: String)
    ensures
        r@ == spec_function_module_body(root@, namespace@, description@, name@, object_type@, responsible@, parent_name@),
{
    let mut r = owned("<?xml version=\"1.0\" encoding=\"UTF-8\"?>\n<");
    append(&mut r, root);
    append(&mut r, " ");
    append(&mut r, namespace);
    append(&mut r, " xmlns:adtcore=\"http://www.sap.com/adt/core\"\n  adtcore:description=\"");
    let piece = escape_xml(description);
    append(&mut r, piece.as_str());
    append(&mut r, "\"\n  adtcore:name=\"");
    let piece = escape_xml(name);
    append(&mut r, piece.as_str());
    append(&mut r, "\"\n  adtcore:type=\"");
    append(&mut r, object_type);
    append(&mut r, "\"\n  adtcore:responsible=\"");
    let piece = escape_xml(responsible);
    append(&mut r, piece.as_str());
    append(&mut r, "\">\n  <adtcore:containerRef adtcore:name=\"");
    let piece = escape_xml(parent_name);
    append(&mut r, piece.as_str());
    append(&mut r, "\" adtcore:type=\"FUGR/F\"\n    adtcore:uri=\"/sap/bc/adt/functions/groups/");
    let piece = encode_path_segment(to_lower(parent_name).as_str());
    append(&mut r, piece.as_str());
    append(&mut r, "\"/>\n</");
    append(&mut r, root);
    append(&mut r, ">");
    assert(r@ =~= spec_function_module_body(root@, namespace@, description@, name@, object_type@, responsible@, parent_name@));
    r
}

/// The creation body of a service definition.
pub open spec fn spec_service_definition_body(root: Seq<char>, namespace: Seq<char>, description: Seq<char>, name: Seq<char>, object_type: Seq<char>, responsible: Seq<char>, package_name: Seq<char>) -> Seq<char> {
    "<?xml version=\"1.0\" encoding=\"UTF-8\"?>\n<"@
        + root
        + " "@
        + namespace
        + " xmlns:adtcore=\"http://www.sap.com/adt/core\"\n  adtcore:description=\""@
        + spec_escape_xml(description)
        + "\"\n  adtcore:name=\""@
        + spec_escape_xml(name)
        + "\"\n  adtcore:type=\""@
        + object_type
        + "\"\n  adtcore:responsible=\""@
        + spec_escape_xml(responsible)
        + "\"\n  srvd:srvdSourceType=\"S\">\n  <adtcore:packageRef adtcore:name=\""@
        + spec_escape_xml(package_name)
        + "\"/>\n</"@
        + root
        + ">"@
}

/// The creation body of a service definition.
fn service_definition_body(root: &str, namespace: &str, description: &str, name: &str, object_type: &str, responsible: &str, package_name: &str) -> (r: String)
    ensures
        r@ == spec_service_definition_body(root@, namespace@, description@, name@, object_type@, responsible@, package_name@),
{
    let mut r = owned("<?xml version=\"1.0\" encoding=\"UTF-8\"?>\n<");
    append(&mut r, root);
    append(&mut r, " ");
    append(&mut r, namespace);
    append(&mut r, " xmlns:adtcore=\"http://www.sap.com/adt/core\"\n  adtcore:description=\"");
    let piece = escape_xml(description);
    append(&mut r, piece.as_str());
    append(&mut r, "\"\n  adtcore:name=\"");
    let piece = escape_xml(name);
    append(&mut r, piece.as_str());
    append(&mut r, "\"\n  adtcore:type=\"");
    append(&mut r, object_type);
    append(&mut r, "\"\n  adtcore:responsible=\"");
    let piece = escape_xml(responsible);
    append(&mut r, piece.as_str());
    append(&mut r, "\"\n  srvd:srvdSourceType=\"S\">\n  <adtcore:packageRef adtcore:name=\"");
    let piece = escape_xml(package_name);
    append(&mut r, piece.as_str());
    append(&mut r, "\"/>\n</");
    append(&mut r, root);
    append(&mut r, ">");
    assert(r@ =~= spec_service_definition_body(root@, namespace@, description@, name@, object_type@, responsible@, package_name@));
    r
}

/// The creation body of a service binding: its service definition and binding type, version and category.
pub open spec fn spec_service_binding_body(root: Seq<char>, namespace: Seq<char>, description: Seq<char>, name: Seq<char>, object_type: Seq<char>, responsible: Seq<char>, package_name: Seq<char>, service_definition: Seq<char>, binding_category: Seq<char>, binding_type: Seq<char>, binding_version: Seq<char>) -> Seq<char> {
    "<?xml version=\"1.0\" encoding=\"UTF-8\"?>\n<"@
        + root
        + " "@
        + namespace
        + " xmlns:adtcore=\"http://www.sap.com/adt/core\"\n  adtcore:description=\""@
        + spec_escape_xml(description)
        + "\"\n  adtcore:name=\""@
        + spec_escape_xml(name)
        + "\"\n  adtcore:type=\""@
        + object_type
        + "\"\n  adtcore:responsible=\""@
        + spec_escape_xml(responsible)
        + "\">\n  <adtcore:packageRef adtcore:name=\""@
        + spec_escape_xml(package_name)
        + "\"/>\n  <srvb:services srvb:name=\""@
        + spec_escape_xml(name)
        + "\">\n    <srvb:content srvb:version=\"0001\">\n      <srvb:serviceDefinition adtcore:name=\""@
        + spec_escape_xml(service_definition)
        + "\"/>\n    </srvb:content>\n  </srvb:services>\n  <srvb:binding srvb:category=\""@
        + spec_escape_xml(binding_category)
        + "\" srvb:type=\""@
        + spec_escape_xml(binding_type)
        + "\" srvb:version=\""@
        + spec_escape_xml(binding_version)
        + "\">\n    <srvb:implementation adtcore:name=\"\"/>\n  </srvb:binding>\n</"@
        + root
        + ">"@
}

/// The creation body of a service binding: its service definition and binding type, version and category.
fn service_binding_body(root: &str, namespace: &str, description: &str, name: &str, object_type: &str, responsible: &str, package_name: &str, service_definition: &str, binding_category: &str, binding_type: &str, binding_version: &str) -> (r: String)
    ensures
        r@ == spec_service_binding_body(root@, namespace@, description@, name@, object_type@, responsible@, package_name@, service_definition@, binding_category@, binding_type@, binding_version@),
{
    let mut r = owned("<?xml version=\"1.0\" encoding=\"UTF-8\"?>\n<");
    append(&mut r, root);
    append(&mut r, " ");
    append(&mut r, namespace);
    append(&mut r, " xmlns:adtcore=\"http://www.sap.com/adt/core\"\n  adtcore:description=\"");
    let piece = escape_xml(description);
    append(&mut r, piece.as_str());
    append(&mut r, "\"\n  adtcore:name=\"");
    let piece = escape_xml(name);
    append(&mut r, piece.as_str());
    append(&mut r, "\"\n  adtcore:type=\"");
    append(&mut r, object_type);
    append(&mut r, "\"\n  adtcore:responsible=\"");
    let piece = escape_xml(responsible);
    append(&mut r, piece.as_str());
    append(&mut r, "\">\n  <adtcore:packageRef adtcore:name=\"");
    let piece = escape_xml(package_name);
    append(&mut r, piece.as_str());
    append(&mut r, "\"/>\n  <srvb:services srvb:name=\"");
    let piece = escape_xml(name);
    append(&mut r, piece.as_str());
    append(&mut r, "\">\n    <srvb:content srvb:version=\"0001\">\n      <srvb:serviceDefinition adtcore:name=\"");
    let piece = escape_xml(service_definition);
    append(&mut r, piece.as_str());
    append(&mut r, "\"/>\n    </srvb:content>\n  </srvb:services>\n  <srvb:binding srvb:category=\"");
    let piece = escape_xml(binding_category);
    append(&mut r, piece.as_str());
    append(&mut r, "\" srvb:type=\"");
    let piece = escape_xml(binding_type);
    append(&mut r, piece.as_str());
    append(&mut r, "\" srvb:version=\"");
    let piece = escape_xml(binding_version);
    append(&mut r, piece.as_str());
    append(&mut r, "\">\n    <srvb:implementation adtcore:name=\"\"/>\n  </srvb:binding>\n</");
    append(&mut r, root);
    append(&mut r, ">");
    assert(r@ =~= spec_service_binding_body(root@, namespace@, description@, name@, object_type@, responsible@, package_name@, service_definition@, binding_category@, binding_type@, binding_version@));
    r
}

/// The creation body of a behaviour definition.
pub open spec fn spec_behavior_definition_body(description: Seq<char>, name: Seq<char>, object_type: Seq<char>, responsible: Seq<char>, package_name: Seq<char>) -> Seq<char> {
    "<?xml version=\"1.0\" encoding=\"UTF-8\"?>\n<blue:blueSource xmlns:blue=\"http://www.sap.com/wbobj/blue\" xmlns:adtcore=\"http://www.sap.com/adt/core\"\n  adtcore:description=\""@
        + spec_escape_xml(description)
        + "\"\n  adtcore:name=\""@
        + spec_escape_xml(name)
        + "\"\n  adtcore:type=\""@
        + object_type
        + "\"\n  adtcore:responsible=\""@
        + spec_escape_xml(responsible)
        + "\">\n  <adtcore:packageRef adtcore:name=\""@
        + spec_escape_xml(package_name)
        + "\"/>\n</blue:blueSource>"@
}

/// The creation body of a behaviour definition.
fn behavior_definition_body(description: &str, name: &str, object_type: &str, responsible: &str, package_name: &str) -> (r: String)
    ensures
        r@ == spec_behavior_definition_body(description@, name@, object_type@, responsible@, package_name@),
{
    let mut r = owned("<?xml version=\"1.0\" encoding=\"UTF-8\"?>\n<blue:blueSource xmlns:blue=\"http://www.sap.com/wbobj/blue\" xmlns:adtcore=\"http://www.sap.com/adt/core\"\n  adtcore:description=\"");
    let piece = escape_xml(description);
    append(&mut r, piece.as_str());
    append(&mut r, "\"\n  adtcore:name=\"");
    let piece = escape_xml(name);
    append(&mut r, piece.as_str());
    append(&mut r, "\"\n  adtcore:type=\"");
    append(&mut r, object_type);
    append(&mut r, "\"\n  adtcore:responsible=\"");
    let piece = escape_xml(responsible);
    append(&mut r, piece.as_str());
    append(&mut r, "\">\n  <adtcore:packageRef adtcore:name=\"");
    let piece = escape_xml(package_name);
    append(&mut r, piece.as_str());
    append(&mut r, "\"/>\n</blue:blueSource>");
    assert(r@ =~= spec_behavior_definition_body(description@, name@, object_type@, responsible@, package_name@));
    r
}

/// The creation body of any other object type: its package.
pub open spec fn spec_generic_body(root: Seq<char>, namespace: Seq<char>, description: Seq<char>, name: Seq<char>, object_type: Seq<char>, responsible: Seq<char>, package_name: Seq<char>) -> Seq<char> {
    "<?xml version=\"1.0\" encoding=\"UTF-8\"?>\n<"@
        + root
        + " "@
        + namespace
        + " xmlns:adtcore=\"http://www.sap.com/adt/core\"\n  adtcore:description=\""@
        + spec_escape_xml(description)
        + "\"\n  adtcore:name=\""@
        + spec_escape_xml(name)
        + "\"\n  adtcore:type=\""@
        + object_type
        + "\"\n  adtcore:responsible=\""@
        + spec_escape_xml(responsible)
        + "\">\n  <adtcore:packageRef adtcore:name=\""@
        + spec_escape_xml(package_name)
        + "\"/>\n</"@
        + root
        + ">"@
}

/// The creation body of any other object type: its package.
fn generic_body(root: &str, namespace: &str, description: &str, name: &str, object_type: &str, responsible: &str, package_name: &str) -> (r: String)
    ensures
        r@ == spec_generic_body(root@, namespace@, description@, name@, object_type@, responsible@, package_name@),
{
    let mut r = owned("<?xml version=\"1.0\" encoding=\"UTF-8\"?>\n<");
    append(&mut r, root);
    append(&mut r, " ");
    append(&mut r, namespace);
    append(&mut r, " xmlns:adtcore=\"http://www.sap.com/adt/core\"\n  adtcore:description=\"");
    let piece = escape_xml(description);
    append(&mut r, piece.as_str());
    append(&mut r, "\"\n  adtcore:name=\"");
    let piece = escape_xml(name);
    append(&mut r, piece.as_str());
    append(&mut r, "\"\n  adtcore:type=\"");
    append(&mut r, object_type);
    append(&mut r, "\"\n  adtcore:responsible=\"");
    let piece = escape_xml(responsible);
    append(&mut r, piece.as_str());
    append(&mut r, "\">\n  <adtcore:packageRef adtcore:name=\"");
    let piece = escape_xml(package_name);
    append(&mut r, piece.as_str());
    append(&mut r, "\"/>\n</");
    append(&mut r, root);
    append(&mut r, ">");
    assert(r@ =~= spec_generic_body(root@, namespace@, description@, name@, object_type@, responsible@, package_name@));
    r
}

/// An optional text, or `default` when absent.
pub open spec fn or_default(o: Option<Seq<char>>, default: Seq<char>) -> Seq<char> {
    match o {
        Some(v) => v,
        None => default,
    }
}

/// The XML body that announces a new object. A package outside the local
/// namespace names the (upper-cased) software component it is given; a
/// service binding defaults to an OData V2 binding of category 0 and
/// names its upper-cased service definition.
pub open spec fn spec_create_object_body(
    object_type: Seq<char>,
    name: Seq<char>,
    description: Seq<char>,
    package_name: Seq<char>,
    parent_name: Seq<char>,
    responsible: Seq<char>,
    args: CreateObjectArgs,
    root: Seq<char>,
    namespace: Seq<char>,
) -> Seq<char> {
    if object_type == "DEVC/K"@ {
        let software_component = if has_prefix(name, "$"@) {
            "LOCAL"@
        } else {
            upper_seq(or_default(opt_text(args.software_component), Seq::empty()))
        };
        spec_package_body(root, namespace, description, name, object_type, responsible, package_name, software_component)
    } else if object_type == "FUGR/FF"@ {
        spec_function_module_body(root, namespace, description, name, object_type, responsible, parent_name)
    } else if object_type == "SRVD/SRV"@ {
        spec_service_definition_body(root, namespace, description, name, object_type, responsible, package_name)
    } else if object_type == "SRVB/SVB"@ {
        spec_service_binding_body(
            root,
            namespace,
            description,
            name,
            object_type,
            responsible,
            package_name,
            upper_seq(or_default(opt_text(args.service_definition), Seq::empty())),
            or_default(opt_text(args.binding_category), "0"@),
            or_default(opt_text(args.binding_type), "ODATA"@),
            or_default(opt_text(args.binding_version), "V2"@),
        )
    } else if object_type == "BDEF/BDO"@ {
        spec_behavior_definition_body(description, name, object_type, responsible, package_name)
    } else {
        spec_generic_body(root, namespace, description, name, object_type, responsible, package_name)
    }
}

/// The text of an optional string, or `default`.
fn text_or(o: &Option<String>, default: &str) -> (r: String)
    ensures
        r@ == or_default(opt_text(*o), default@),
{
    match o {
        Some(v) => v.clone(),
        None => owned(default),
    }
}

/// The XML body that announces a new object.
pub fn build_create_object_body(
    object_type: &str,
    name: &str,
    description: &str,
    package_name: &str,
    parent_name: &str,
    responsible: &str,
    args: &CreateObjectArgs,
    type_info: &CreateObjectTypeInfo,
) -> (r: String)
    ensures
        r@ == spec_create_object_body(
            object_type@,
            name@,
            description@,
            package_name@,
            parent_name@,
            responsible@,
            *args,
            type_info.root_name@,
            type_info.namespace@,
        ),
{
    let root = type_info.root_name;
    let namespace = type_info.namespace;
    if str_eq(object_type, "DEVC/K") {
        let software_component = if crate::text::starts_with(name, "$") {
            owned("LOCAL")
        } else {
            to_upper(text_or(&args.software_component, "").as_str())
        };
        proof {
            reveal_strlit("");
        }
        package_body(root, namespace, description, name, object_type, responsible, package_name, software_component.as_str())
    } else if str_eq(object_type, "FUGR/FF") {
        function_module_body(root, namespace, description, name, object_type, responsible, parent_name)
    } else if str_eq(object_type, "SRVD/SRV") {
        service_definition_body(root, namespace, description, name, object_type, responsible, package_name)
    } else if str_eq(object_type, "SRVB/SVB") {
        let service_definition = to_upper(text_or(&args.service_definition, "").as_str());
        let binding_category = text_or(&args.binding_category, "0");
        let binding_type = text_or(&args.binding_type, "ODATA");
        let binding_version = text_or(&args.binding_version, "V2");
        proof {
            reveal_strlit("");
        }
        service_binding_body(
            root,
            namespace,
            description,
            name,
            object_type,
            responsible,
            package_name,
            service_definition.as_str(),
            binding_category.as_str(),
            binding_type.as_str(),
            binding_version.as_str(),
        )
    } else if str_eq(object_type, "BDEF/BDO") {
        behavior_definition_body(description, name, object_type, responsible, package_name)
    } else {
        generic_body(root, namespace, description, name, object_type, responsible, package_name)
    }
}

/// What creating an object amounts to: its (long, upper-cased) type and
/// name, the endpoint to post to, the body and its content type, and the
/// URL the new object will have.
#[derive(Clone, Debug)]
pub struct CreateObjectPlan {
    pub object_type: String,
    pub name: String,
    pub endpoint: String,
    pub body: String,
    pub content_type: &'static str,
    pub object_url: String,
}

/// A creation plan as text values.
pub type PlanView = (Seq<char>, Seq<char>, Seq<char>, Seq<char>, Seq<char>, Seq<char>);

/// A creation plan as text values.
pub open spec fn plan_view(p: CreateObjectPlan) -> PlanView {
    (p.object_type@, p.name@, p.endpoint@, p.body@, p.content_type@, p.object_url@)
}

/// `None` for empty text.
pub open spec fn non_empty(s: Seq<char>) -> Option<Seq<char>> {
    if s.len() == 0 {
        None
    } else {
        Some(s)
    }
}

/// The user responsible for a new object: the one given, else the
/// configured SAP user, upper-cased; `DDIC` when that is blank.
pub open spec fn spec_responsible(given: Option<Seq<char>>, env_user: Option<Seq<char>>) -> Seq<char> {
    let chosen = match given {
        Some(r) => Some(r),
        None => env_user,
    };
    match chosen {
        Some(r) => if trim_seq(r).len() > 0 {
            upper_seq(r)
        } else {
            "DDIC"@
        },
        None => "DDIC"@,
    }
}

/// The query of a creation request: the transport request, when one is
/// given and not blank, as `corrNr`.
pub open spec fn spec_create_query(transport: Option<Seq<char>>) -> Seq<(Seq<char>, Seq<char>)> {
    match transport {
        Some(t) => if trim_seq(t).len() > 0 {
            seq![("corrNr"@, trim_seq(t))]
        } else {
            Seq::empty()
        },
        None => Seq::empty(),
    }
}

/// `path` with the encoded query appended after a `?`, when there is one.
pub open spec fn with_query(path: Seq<char>, query: Seq<(Seq<char>, Seq<char>)>) -> Seq<char> {
    let encoded = form_encode_pairs(query);
    if encoded.len() == 0 {
        path
    } else {
        path + "?"@ + encoded
    }
}

/// How to create the object that `args` describes, with `env_user` the
/// configured SAP user: the type, name and description must be given,
/// and (but for a package) a package; the type must be creatable, and a
/// function module needs its group. Otherwise the message that refuses
/// the call.
pub open spec fn spec_create_plan(args: CreateObjectArgs, env_user: Option<Seq<char>>) -> Result<
    PlanView,
    Seq<char>,
> {
    match (opt_text(args.object_type), opt_text(args.name), opt_text(args.description)) {
        (None, _, _) => Err("objectType/object_type is required"@),
        (Some(_), None, _) => Err("name is required"@),
        (Some(_), Some(_), None) => Err("description is required"@),
        (Some(t), Some(n), Some(d)) => {
            let object_type = upper_seq(trim_seq(t));
            let name = upper_seq(trim_seq(n));
            let description = trim_seq(d);
            let package_name = upper_seq(trim_seq(or_default(opt_text(args.package_name), Seq::empty())));
            let parent_name = upper_seq(trim_seq(or_default(opt_text(args.parent_name), Seq::empty())));
            if object_type != "DEVC/K"@ && package_name.len() == 0 {
                Err("packageName/package_name is required"@)
            } else {
                match spec_type_info(object_type, non_empty(parent_name)) {
                    None => Err(
                        "unsupported object_type `"@ + object_type
                            + "` or missing required parent_name"@,
                    ),
                    Some(info) => {
                        let responsible = spec_responsible(opt_text(args.responsible), env_user);
                        Ok(
                            (
                                object_type,
                                name,
                                with_query(info.0, spec_create_query(opt_text(args.transport))),
                                spec_create_object_body(
                                    object_type,
                                    name,
                                    description,
                                    package_name,
                                    parent_name,
                                    responsible,
                                    args,
                                    info.1,
                                    info.2,
                                ),
                                info.3,
                                spec_object_url(object_type, name, non_empty(parent_name)),
                            ),
                        )
                    },
                }
            }
        },
    }
}

/// The refusal of a tool call for bad arguments.
pub fn invalid_arguments(tool_name: &str, message: &str) -> (r: NeuroMcpError)
    ensures
        r matches NeuroMcpError::InvalidArguments { tool, message: m } && tool@ == tool_name@ && m@
            == message@,
{
    NeuroMcpError::InvalidArguments { tool: owned(tool_name), message: owned(message) }
}

/// `s` trimmed, or nothing when it is blank.
fn non_empty_string(s: String) -> (r: Option<String>)
    ensures
        opt_text(r) == non_empty(s@),
{
    if s.as_str().is_empty() {
        None
    } else {
        Some(s)
    }
}

/// How to create the object that a tool call describes.
pub fn plan_create_object(args: &CreateObjectArgs, env_user: Option<String>, tool_name: &str) -> (r: Result<
    CreateObjectPlan,
    NeuroMcpError,
>)
    ensures
        match spec_create_plan(*args, opt_text(env_user)) {
            Ok(v) => r matches Ok(p) && plan_view(p) == v,
            Err(m) => r matches Err(NeuroMcpError::InvalidArguments { tool, message }) && tool@
                == tool_name@ && message@ == m,
        },
{
    let object_type = match &args.object_type {
        Some(t) => to_upper(trim(t.as_str()).as_str()),
        None => {
            return Err(invalid_arguments(tool_name, "objectType/object_type is required"));
        },
    };
    let name = match &args.name {
        Some(n) => to_upper(trim(n.as_str()).as_str()),
        None => {
            return Err(invalid_arguments(tool_name, "name is required"));
        },
    };
    let description = match &args.description {
        Some(d) => trim(d.as_str()),
        None => {
            return Err(invalid_arguments(tool_name, "description is required"));
        },
    };
    let package_name = to_upper(trim(text_or(&args.package_name, "").as_str()).as_str());
    let parent_name = to_upper(trim(text_or(&args.parent_name, "").as_str()).as_str());
    proof {
        reveal_strlit("");
    }
    if !str_eq(object_type.as_str(), "DEVC/K") && package_name.as_str().is_empty() {
        return Err(invalid_arguments(tool_name, "packageName/package_name is required"));
    }
    let parent_opt = non_empty_string(parent_name.clone());
    let parent_ref: Option<&str> = match &parent_opt {
        Some(p) => Some(p.as_str()),
        None => None,
    };
    let info = match resolve_create_object_type_info(object_type.as_str(), parent_ref) {
        Some(i) => i,
        None => {
            let mut message = concat("unsupported object_type `", object_type.as_str());
            append(&mut message, "` or missing required parent_name");
            return Err(invalid_arguments(tool_name, message.as_str()));
        },
    };
    let chosen: Option<String> = match &args.responsible {
        Some(r) => Some(r.clone()),
        None => env_user,
    };
    let responsible = match chosen {
        Some(r) => if !trim(r.as_str()).as_str().is_empty() {
            to_upper(r.as_str())
        } else {
            owned("DDIC")
        },
        None => owned("DDIC"),
    };
    let body = build_create_object_body(
        object_type.as_str(),
        name.as_str(),
        description.as_str(),
        package_name.as_str(),
        parent_name.as_str(),
        responsible.as_str(),
        args,
        &info,
    );
    let mut query: Vec<(String, String)> = Vec::new();
    match &args.transport {
        Some(t) => {
            let t = trim(t.as_str());
            if !t.as_str().is_empty() {
                query.push((owned("corrNr"), t));
            }
        },
        None => {},
    }
    assert(query@.map_values(|p: (String, String)| (p.0@, p.1@)) =~= spec_create_query(
        opt_text(args.transport),
    ));
    let endpoint = build_path_with_query(info.creation_path.as_str(), &query);
    let object_url = build_object_url(object_type.as_str(), name.as_str(), parent_ref);
    Ok(
        CreateObjectPlan {
            object_type,
            name,
            endpoint,
            body,
            content_type: info.content_type,
            object_url,
        },
    )
}


/// Every type that the normalizer gives is its own normal form and can be
/// created (a function module given its group).
pub proof fn law_normalized_types_are_creatable(object_type: Seq<char>, group: Seq<char>)
    ensures
        spec_normalize_creatable_type(object_type) matches Some(c) ==> spec_normalize_creatable_type(c) == Some(c)
            && spec_type_info(c, Some(group)) is Some,
{
    reveal_strlit("PROG/P");
    lemma_canon_unchanged("PROG/P"@);
    reveal_strlit("PROG/I");
    lemma_canon_unchanged("PROG/I"@);
    reveal_strlit("CLAS/OC");
    lemma_canon_unchanged("CLAS/OC"@);
    reveal_strlit("INTF/OI");
    lemma_canon_unchanged("INTF/OI"@);
    reveal_strlit("FUGR/F");
    lemma_canon_unchanged("FUGR/F"@);
    reveal_strlit("FUGR/FF");
    lemma_canon_unchanged("FUGR/FF"@);
    reveal_strlit("DEVC/K");
    lemma_canon_unchanged("DEVC/K"@);
    reveal_strlit("DDLS/DF");
    lemma_canon_unchanged("DDLS/DF"@);
    reveal_strlit("BDEF/BDO");
    lemma_canon_unchanged("BDEF/BDO"@);
    reveal_strlit("SRVD/SRV");
    lemma_canon_unchanged("SRVD/SRV"@);
    reveal_strlit("SRVB/SVB");
    lemma_canon_unchanged("SRVB/SVB"@);
    reveal_strlit("PROG");
    reveal_strlit("REPORT");
    reveal_strlit("INCL");
    reveal_strlit("INCLUDE");
    reveal_strlit("CLAS");
    reveal_strlit("CLASS");
    reveal_strlit("INTF");
    reveal_strlit("INTERFACE");
    reveal_strlit("FUGR");
    reveal_strlit("FMOD");
    reveal_strlit("FUNCTION");
    reveal_strlit("DEVC");
    reveal_strlit("PACKAGE");
    reveal_strlit("DDLS");
    reveal_strlit("BDEF");
    reveal_strlit("SRVD");
    reveal_strlit("SRVB");
}

/// A name of ASCII letters, digits and underscores.
pub open spec fn plain_name(name: Seq<char>) -> bool {
    forall|i: int|
        0 <= i < name.len() ==> ('a' <= #[trigger] name[i] && name[i] <= 'z') || ('A' <= name[i] && name[i] <= 'Z')
            || ('0' <= name[i] && name[i] <= '9') || name[i] == '_'
}

/// A plain name is written as it is in a URL, and so is its lower-cased
/// form.
proof fn lemma_plain_name_encoding(name: Seq<char>)
    requires
        plain_name(name),
    ensures
        enc(name) == name,
        enc(lower_seq(name)) == lower_seq(name),
{
    assert forall|i: int| 0 <= i < name.len() implies form_byte_unchanged(#[trigger] name[i] as u8) by {}
    lemma_form_encode_plain(name);
    let l = lower_seq(name);
    assert forall|i: int| 0 <= i < l.len() implies form_byte_unchanged(#[trigger] l[i] as u8) && '\0' <= l[i] <= '\u{7f}' by {
        let c = name[i];
        if 'A' <= c && c <= 'Z' {
            assert(l[i] == ((c as u8) + 32) as char);
        }
    }
    lemma_form_encode_plain(l);
}

/// How an object's name appears in its URL: lower-cased for data,
/// behaviour and service definitions and bindings, else as it is.
pub open spec fn url_name(object_type: Seq<char>, name: Seq<char>) -> Seq<char> {
    if object_type == "DDLS/DF"@ || object_type == "BDEF/BDO"@ || object_type == "SRVD/SRV"@ || object_type
        == "SRVB/SVB"@ {
        lower_seq(name)
    } else {
        name
    }
}

/// An object of a creatable type, with a plain name, lives at its type's
/// creation path followed by `/` and its name (lower-cased for data,
/// behaviour and service definitions and bindings); any type that cannot
/// be created has no object URL.
pub proof fn law_object_url_follows_the_type_table(
    object_type: Seq<char>,
    name: Seq<char>,
    parent: Option<Seq<char>>,
)
    requires
        plain_name(name),
    ensures
        spec_type_info(object_type, parent) matches Some(info) ==> spec_object_url(object_type, name, parent) == info.0
            + "/"@ + url_name(object_type, name),
        spec_type_info(object_type, Some(name)) is None ==> spec_object_url(object_type, name, parent).len() == 0,
{
    lemma_plain_name_encoding(name);
    reveal_strlit("PROG/P");
    reveal_strlit("PROG/I");
    reveal_strlit("CLAS/OC");
    reveal_strlit("INTF/OI");
    reveal_strlit("FUGR/F");
    reveal_strlit("FUGR/FF");
    reveal_strlit("DEVC/K");
    reveal_strlit("DDLS/DF");
    reveal_strlit("BDEF/BDO");
    reveal_strlit("SRVD/SRV");
    reveal_strlit("SRVB/SVB");
    reveal_strlit("/");
    assert("PROG/P"@.len() == 6 && "PROG/P"@[0] == 'P' && "PROG/P"@[3] == 'G' && "PROG/P"@[5] == 'P');
    assert("PROG/I"@.len() == 6 && "PROG/I"@[0] == 'P' && "PROG/I"@[3] == 'G' && "PROG/I"@[5] == 'I');
    assert("CLAS/OC"@.len() == 7 && "CLAS/OC"@[0] == 'C' && "CLAS/OC"@[3] == 'S' && "CLAS/OC"@[5] == 'O');
    assert("INTF/OI"@.len() == 7 && "INTF/OI"@[0] == 'I' && "INTF/OI"@[3] == 'F' && "INTF/OI"@[5] == 'O');
    assert("FUGR/F"@.len() == 6 && "FUGR/F"@[0] == 'F' && "FUGR/F"@[3] == 'R' && "FUGR/F"@[5] == 'F');
    assert("FUGR/FF"@.len() == 7 && "FUGR/FF"@[0] == 'F' && "FUGR/FF"@[3] == 'R' && "FUGR/FF"@[5] == 'F');
    assert("DEVC/K"@.len() == 6 && "DEVC/K"@[0] == 'D' && "DEVC/K"@[3] == 'C' && "DEVC/K"@[5] == 'K');
    assert("DDLS/DF"@.len() == 7 && "DDLS/DF"@[0] == 'D' && "DDLS/DF"@[3] == 'S' && "DDLS/DF"@[5] == 'D');
    assert("BDEF/BDO"@.len() == 8 && "BDEF/BDO"@[0] == 'B' && "BDEF/BDO"@[3] == 'F' && "BDEF/BDO"@[5] == 'B');
    assert("SRVD/SRV"@.len() == 8 && "SRVD/SRV"@[0] == 'S' && "SRVD/SRV"@[3] == 'D' && "SRVD/SRV"@[5] == 'S');
    assert("SRVB/SVB"@.len() == 8 && "SRVB/SVB"@[0] == 'S' && "SRVB/SVB"@[3] == 'B' && "SRVB/SVB"@[5] == 'S');
    reveal_strlit("/sap/bc/adt/programs/programs");
    reveal_strlit("/sap/bc/adt/programs/programs/");
    assert("/sap/bc/adt/programs/programs"@ + "/"@ =~= "/sap/bc/adt/programs/programs/"@);
    reveal_strlit("/sap/bc/adt/programs/includes");
    reveal_strlit("/sap/bc/adt/programs/includes/");
    assert("/sap/bc/adt/programs/includes"@ + "/"@ =~= "/sap/bc/adt/programs/includes/"@);
    reveal_strlit("/sap/bc/adt/oo/classes");
    reveal_strlit("/sap/bc/adt/oo/classes/");
    assert("/sap/bc/adt/oo/classes"@ + "/"@ =~= "/sap/bc/adt/oo/classes/"@);
    reveal_strlit("/sap/bc/adt/oo/interfaces");
    reveal_strlit("/sap/bc/adt/oo/interfaces/");
    assert("/sap/bc/adt/oo/interfaces"@ + "/"@ =~= "/sap/bc/adt/oo/interfaces/"@);
    reveal_strlit("/sap/bc/adt/functions/groups");
    reveal_strlit("/sap/bc/adt/functions/groups/");
    assert("/sap/bc/adt/functions/groups"@ + "/"@ =~= "/sap/bc/adt/functions/groups/"@);
    reveal_strlit("/sap/bc/adt/packages");
    reveal_strlit("/sap/bc/adt/packages/");
    assert("/sap/bc/adt/packages"@ + "/"@ =~= "/sap/bc/adt/packages/"@);
    reveal_strlit("/sap/bc/adt/ddic/ddl/sources");
    reveal_strlit("/sap/bc/adt/ddic/ddl/sources/");
    assert("/sap/bc/adt/ddic/ddl/sources"@ + "/"@ =~= "/sap/bc/adt/ddic/ddl/sources/"@);
    reveal_strlit("/sap/bc/adt/bo/behaviordefinitions");
    reveal_strlit("/sap/bc/adt/bo/behaviordefinitions/");
    assert("/sap/bc/adt/bo/behaviordefinitions"@ + "/"@ =~= "/sap/bc/adt/bo/behaviordefinitions/"@);
    reveal_strlit("/sap/bc/adt/ddic/srvd/sources");
    reveal_strlit("/sap/bc/adt/ddic/srvd/sources/");
    assert("/sap/bc/adt/ddic/srvd/sources"@ + "/"@ =~= "/sap/bc/adt/ddic/srvd/sources/"@);
    reveal_strlit("/sap/bc/adt/businessservices/bindings");
    reveal_strlit("/sap/bc/adt/businessservices/bindings/");
    assert("/sap/bc/adt/businessservices/bindings"@ + "/"@ =~= "/sap/bc/adt/businessservices/bindings/"@);
    reveal_strlit("/fmodules");
    reveal_strlit("/fmodules/");
    reveal_strlit("/sap/bc/adt/functions/groups/");
    if object_type == "FUGR/FF"@ {
        if let Some(p) = parent {
            let g = "/sap/bc/adt/functions/groups/"@ + enc(upper_seq(p));
            assert(g + "/fmodules"@ + "/"@ + name =~= g + "/fmodules/"@ + name);
            assert(spec_type_info(object_type, parent) matches Some(info) ==> spec_object_url(object_type, name, parent) == info.0 + "/"@ + url_name(object_type, name));
        }
    } else if object_type == "PROG/P"@ {
        assert(spec_object_url(object_type, name, parent) == "/sap/bc/adt/programs/programs/"@ + name);
        assert("/sap/bc/adt/programs/programs"@ + "/"@ + name =~= "/sap/bc/adt/programs/programs/"@ + name);
        assert(spec_type_info(object_type, parent) matches Some(info) ==> spec_object_url(object_type, name, parent) == info.0 + "/"@ + url_name(object_type, name));
    } else if object_type == "PROG/I"@ {
        assert(spec_object_url(object_type, name, parent) == "/sap/bc/adt/programs/includes/"@ + name);
        assert("/sap/bc/adt/programs/includes"@ + "/"@ + name =~= "/sap/bc/adt/programs/includes/"@ + name);
        assert(spec_type_info(object_type, parent) matches Some(info) ==> spec_object_url(object_type, name, parent) == info.0 + "/"@ + url_name(object_type, name));
    } else if object_type == "CLAS/OC"@ {
        assert(spec_object_url(object_type, name, parent) == "/sap/bc/adt/oo/classes/"@ + name);
        assert("/sap/bc/adt/oo/classes"@ + "/"@ + name =~= "/sap/bc/adt/oo/classes/"@ + name);
        assert(spec_type_info(object_type, parent) matches Some(info) ==> spec_object_url(object_type, name, parent) == info.0 + "/"@ + url_name(object_type, name));
    } else if object_type == "INTF/OI"@ {
        assert(spec_object_url(object_type, name, parent) == "/sap/bc/adt/oo/interfaces/"@ + name);
        assert("/sap/bc/adt/oo/interfaces"@ + "/"@ + name =~= "/sap/bc/adt/oo/interfaces/"@ + name);
        assert(spec_type_info(object_type, parent) matches Some(info) ==> spec_object_url(object_type, name, parent) == info.0 + "/"@ + url_name(object_type, name));
    } else if object_type == "FUGR/F"@ {
        assert(spec_object_url(object_type, name, parent) == "/sap/bc/adt/functions/groups/"@ + name);
        assert("/sap/bc/adt/functions/groups"@ + "/"@ + name =~= "/sap/bc/adt/functions/groups/"@ + name);
        assert(spec_type_info(object_type, parent) matches Some(info) ==> spec_object_url(object_type, name, parent) == info.0 + "/"@ + url_name(object_type, name));
    } else if object_type == "DEVC/K"@ {
        assert(spec_object_url(object_type, name, parent) == "/sap/bc/adt/packages/"@ + name);
        assert("/sap/bc/adt/packages"@ + "/"@ + name =~= "/sap/bc/adt/packages/"@ + name);
        assert(spec_type_info(object_type, parent) matches Some(info) ==> spec_object_url(object_type, name, parent) == info.0 + "/"@ + url_name(object_type, name));
    } else if object_type == "DDLS/DF"@ {
        assert(spec_object_url(object_type, name, parent) == "/sap/bc/adt/ddic/ddl/sources/"@ + lower_seq(name));
        assert("/sap/bc/adt/ddic/ddl/sources"@ + "/"@ + lower_seq(name) =~= "/sap/bc/adt/ddic/ddl/sources/"@ + lower_seq(name));
        assert(spec_type_info(object_type, parent) matches Some(info) ==> spec_object_url(object_type, name, parent) == info.0 + "/"@ + url_name(object_type, name));
    } else if object_type == "BDEF/BDO"@ {
        assert(spec_object_url(object_type, name, parent) == "/sap/bc/adt/bo/behaviordefinitions/"@ + lower_seq(name));
        assert("/sap/bc/adt/bo/behaviordefinitions"@ + "/"@ + lower_seq(name) =~= "/sap/bc/adt/bo/behaviordefinitions/"@ + lower_seq(name));
        assert(spec_type_info(object_type, parent) matches Some(info) ==> spec_object_url(object_type, name, parent) == info.0 + "/"@ + url_name(object_type, name));
    } else if object_type == "SRVD/SRV"@ {
        assert(spec_object_url(object_type, name, parent) == "/sap/bc/adt/ddic/srvd/sources/"@ + lower_seq(name));
        assert("/sap/bc/adt/ddic/srvd/sources"@ + "/"@ + lower_seq(name) =~= "/sap/bc/adt/ddic/srvd/sources/"@ + lower_seq(name));
        assert(spec_type_info(object_type, parent) matches Some(info) ==> spec_object_url(object_type, name, parent) == info.0 + "/"@ + url_name(object_type, name));
    } else if object_type == "SRVB/SVB"@ {
        assert(spec_object_url(object_type, name, parent) == "/sap/bc/adt/businessservices/bindings/"@ + lower_seq(name));
        assert("/sap/bc/adt/businessservices/bindings"@ + "/"@ + lower_seq(name) =~= "/sap/bc/adt/businessservices/bindings/"@ + lower_seq(name));
        assert(spec_type_info(object_type, parent) matches Some(info) ==> spec_object_url(object_type, name, parent) == info.0 + "/"@ + url_name(object_type, name));
    }
}

} // verus!
