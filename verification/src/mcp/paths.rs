//! ADT request paths of repository objects, and the names that the tools
//! derive from object types.
use vstd::prelude::*;

use vstd::string::StringSliceAdditionalSpecFns;

use crate::xml::opt_text;
use crate::mcp::encode::{encode_path_segment, form_encode, form_encode_pairs, serialize_pairs};
use crate::text::{
    append, concat, eq_ignore_case, find_seq, has_prefix, has_suffix, lower_seq, owned, split, split_seq, str_eq,
    strip_end, strip_end_char, strip_start, strip_start_char, to_lower, to_upper, trim, trim_seq,
    upper_seq, is_ws, upper_char, lemma_trim_unchanged, lemma_trim_padded, lemma_trim_lower,
    lemma_upper_of_lower, lemma_trim_chars, lemma_trim_idempotent, lemma_split_last_free, lemma_split_absent,
};

verus! {

/// The form encoding of the UTF-8 bytes of `s`: how a path segment is
/// written.
pub open spec fn enc(s: Seq<char>) -> Seq<char> {
    form_encode(vstd::utf8::encode_utf8(s))
}

/// The URL of a repository object of a creatable type; empty for any
/// other type. A function module lives under its (upper-cased) group;
/// data definitions, behaviour definitions, service definitions and
/// bindings are addressed by their lower-cased name.
pub open spec fn spec_object_url(object_type: Seq<char>, name: Seq<char>, parent: Option<Seq<char>>) -> Seq<char> {
    if object_type == "PROG/P"@ {
        "/sap/bc/adt/programs/programs/"@ + enc(name)
    } else if object_type == "PROG/I"@ {
        "/sap/bc/adt/programs/includes/"@ + enc(name)
    } else if object_type == "CLAS/OC"@ {
        "/sap/bc/adt/oo/classes/"@ + enc(name)
    } else if object_type == "INTF/OI"@ {
        "/sap/bc/adt/oo/interfaces/"@ + enc(name)
    } else if object_type == "FUGR/F"@ {
        "/sap/bc/adt/functions/groups/"@ + enc(name)
    } else if object_type == "FUGR/FF"@ {
        "/sap/bc/adt/functions/groups/"@ + enc(
            upper_seq(
                match parent {
                    Some(p) => p,
                    None => Seq::empty(),
                },
            ),
        ) + "/fmodules/"@ + enc(name)
    } else if object_type == "DEVC/K"@ {
        "/sap/bc/adt/packages/"@ + enc(name)
    } else if object_type == "DDLS/DF"@ {
        "/sap/bc/adt/ddic/ddl/sources/"@ + enc(lower_seq(name))
    } else if object_type == "BDEF/BDO"@ {
        "/sap/bc/adt/bo/behaviordefinitions/"@ + enc(lower_seq(name))
    } else if object_type == "SRVD/SRV"@ {
        "/sap/bc/adt/ddic/srvd/sources/"@ + enc(lower_seq(name))
    } else if object_type == "SRVB/SVB"@ {
        "/sap/bc/adt/businessservices/bindings/"@ + enc(lower_seq(name))
    } else {
        Seq::empty()
    }
}

/// The text of an optional string slice.
pub open spec fn opt_str(o: Option<&str>) -> Option<Seq<char>> {
    match o {
        Some(s) => Some(s@),
        None => None,
    }
}

/// `prefix` followed by the encoded `name`.
fn prefixed(prefix: &str, name: &str) -> (r: String)
    ensures
        r@ == prefix@ + enc(name@),
{
    let encoded = encode_path_segment(name);
    concat(prefix, encoded.as_str())
}

/// The URL of a repository object of a creatable type (see
/// `spec_object_url`); empty for any other type.
pub fn build_object_url(object_type: &str, name: &str, parent_name: Option<&str>) -> (r: String)
    ensures
        r@ == spec_object_url(object_type@, name@, opt_str(parent_name)),
{
    if str_eq(object_type, "PROG/P") {
        prefixed("/sap/bc/adt/programs/programs/", name)
    } else if str_eq(object_type, "PROG/I") {
        prefixed("/sap/bc/adt/programs/includes/", name)
    } else if str_eq(object_type, "CLAS/OC") {
        prefixed("/sap/bc/adt/oo/classes/", name)
    } else if str_eq(object_type, "INTF/OI") {
        prefixed("/sap/bc/adt/oo/interfaces/", name)
    } else if str_eq(object_type, "FUGR/F") {
        prefixed("/sap/bc/adt/functions/groups/", name)
    } else if str_eq(object_type, "FUGR/FF") {
        let parent = match parent_name {
            Some(p) => to_upper(p),
            None => String::new(),
        };
        let mut r = prefixed("/sap/bc/adt/functions/groups/", parent.as_str());
        append(&mut r, "/fmodules/");
        let encoded = encode_path_segment(name);
        append(&mut r, encoded.as_str());
        r
    } else if str_eq(object_type, "DEVC/K") {
        prefixed("/sap/bc/adt/packages/", name)
    } else if str_eq(object_type, "DDLS/DF") {
        prefixed("/sap/bc/adt/ddic/ddl/sources/", to_lower(name).as_str())
    } else if str_eq(object_type, "BDEF/BDO") {
        prefixed("/sap/bc/adt/bo/behaviordefinitions/", to_lower(name).as_str())
    } else if str_eq(object_type, "SRVD/SRV") {
        prefixed("/sap/bc/adt/ddic/srvd/sources/", to_lower(name).as_str())
    } else if str_eq(object_type, "SRVB/SVB") {
        prefixed("/sap/bc/adt/businessservices/bindings/", to_lower(name).as_str())
    } else {
        String::new()
    }
}

/// `path_pattern` with each `{name}` replaced by the encoded `name`.
pub fn build_source_uri(path_pattern: &str, name: &str) -> (r: String)
    ensures
        r@ == crate::text::replace_seq(path_pattern@, "{name}"@, enc(name@)),
{
    let encoded = encode_path_segment(name);
    proof {
        reveal_strlit("{name}");
    }
    crate::text::replace(path_pattern, "{name}", encoded.as_str())
}

/// The URL of a class section: the main source for `main` (in any letter
/// case), else the named section in lower case.
pub open spec fn spec_class_include_uri(class_name: Seq<char>, include_type: Seq<char>) -> Seq<char> {
    if lower_seq(include_type) == lower_seq("main"@) {
        "/sap/bc/adt/oo/classes/"@ + enc(upper_seq(class_name)) + "/source/main"@
    } else {
        "/sap/bc/adt/oo/classes/"@ + enc(upper_seq(class_name)) + "/includes/"@ + lower_seq(
            include_type,
        )
    }
}

/// The URL of a class section.
pub fn build_class_include_uri(class_name: &str, include_type: &str) -> (r: String)
    ensures
        r@ == spec_class_include_uri(class_name@, include_type@),
{
    let mut r = prefixed("/sap/bc/adt/oo/classes/", to_upper(class_name).as_str());
    if eq_ignore_case(include_type, "main") {
        append(&mut r, "/source/main");
    } else {
        append(&mut r, "/includes/");
        append(&mut r, to_lower(include_type).as_str());
    }
    r
}

/// `path` with the form-encoded query pairs appended after a `?`; `path`
/// alone when there are none.
pub fn build_path_with_query(path: &str, query: &Vec<(String, String)>) -> (r: String)
    ensures
        ({
            let encoded = form_encode_pairs(query@.map_values(|p: (String, String)| (p.0@, p.1@)));
            r@ == if encoded.len() == 0 {
                path@
            } else {
                path@ + "?"@ + encoded
            }
        }),
{
    let encoded = serialize_pairs(query);
    if encoded.as_str().is_empty() {
        owned(path)
    } else {
        let mut r = concat(path, "?");
        append(&mut r, encoded.as_str());
        r
    }
}

/// The content URL of a file of a UI5 application in the BSP file store:
/// the upper-cased application name and the file path without its
/// leading slashes, joined by `/` and encoded as one segment.
pub open spec fn spec_ui5_file_content_path(app_name: Seq<char>, file_path: Seq<char>) -> Seq<char> {
    "/sap/bc/adt/filestore/ui5-bsp/objects/"@ + enc(
        upper_seq(trim_seq(app_name)) + "/"@ + strip_start_char(trim_seq(file_path), '/'),
    ) + "/content"@
}

/// The content URL of a file of a UI5 application.
pub fn build_ui5_file_content_path(app_name: &str, file_path: &str) -> (r: String)
    ensures
        r@ == spec_ui5_file_content_path(app_name@, file_path@),
{
    let app_upper = to_upper(trim(app_name).as_str());
    let file_rel = strip_start(trim(file_path).as_str(), '/');
    let mut full_path = concat(app_upper.as_str(), "/");
    append(&mut full_path, file_rel.as_str());
    let mut r = prefixed("/sap/bc/adt/filestore/ui5-bsp/objects/", full_path.as_str());
    append(&mut r, "/content");
    r
}

/// The trimmed, upper-cased form of an object type or name.
pub open spec fn canon(s: Seq<char>) -> Seq<char> {
    upper_seq(trim_seq(s))
}

/// `s` trimmed and upper-cased.
pub fn canon_string(s: &str) -> (r: String)
    ensures
        r@ == canon(s@),
{
    to_upper(trim(s).as_str())
}

/// The URL of the main source of a class, or of one of its includes:
/// `main` (in any letter case) or a blank section is the main source.
pub open spec fn class_source_uri(name: Seq<char>, section: Option<Seq<char>>) -> Seq<char> {
    let include_type = trim_seq(
        match section {
            Some(i) => i,
            None => "main"@,
        },
    );
    if include_type.len() == 0 || lower_seq(include_type) == lower_seq("main"@) {
        "/sap/bc/adt/oo/classes/"@ + enc(name) + "/source/main"@
    } else {
        "/sap/bc/adt/oo/classes/"@ + enc(name) + "/includes/"@ + lower_seq(include_type)
    }
}

/// The source URL of an object given by type and name (both trimmed and
/// upper-cased, short or long type names alike); a function module needs
/// its group. `None` for a type without source text.
pub open spec fn spec_resolve_source_uri(
    object_type: Seq<char>,
    object_name: Seq<char>,
    parent_name: Option<Seq<char>>,
    section: Option<Seq<char>>,
) -> Option<Seq<char>> {
    let t = canon(object_type);
    let n = canon(object_name);
    if t == "PROG"@ || t == "PROG/P"@ {
        Some("/sap/bc/adt/programs/programs/"@ + enc(n) + "/source/main"@)
    } else if t == "PROG/I"@ || t == "INCL"@ || t == "INCLUDE"@ {
        Some("/sap/bc/adt/programs/includes/"@ + enc(n) + "/source/main"@)
    } else if t == "CLAS"@ || t == "CLAS/OC"@ {
        Some(class_source_uri(n, section))
    } else if t == "INTF"@ || t == "INTF/OI"@ {
        Some("/sap/bc/adt/oo/interfaces/"@ + enc(n) + "/source/main"@)
    } else if t == "FUGR/FF"@ {
        match parent_name {
            Some(p) => Some(
                "/sap/bc/adt/functions/groups/"@ + enc(canon(p)) + "/fmodules/"@ + enc(n)
                    + "/source/main"@,
            ),
            None => None,
        }
    } else if t == "TABL"@ || t == "TABL/DT"@ {
        Some("/sap/bc/adt/ddic/tables/"@ + enc(lower_seq(n)) + "/source/main"@)
    } else if t == "STRU"@ || t == "STRU/DS"@ {
        Some("/sap/bc/adt/ddic/structures/"@ + enc(lower_seq(n)) + "/source/main"@)
    } else if t == "DDLS"@ || t == "DDLS/DF"@ {
        Some("/sap/bc/adt/ddic/ddl/sources/"@ + enc(lower_seq(n)) + "/source/main"@)
    } else if t == "BDEF"@ || t == "BDEF/BDO"@ {
        Some("/sap/bc/adt/bo/behaviordefinitions/"@ + enc(lower_seq(n)) + "/source/main"@)
    } else if t == "SRVD"@ || t == "SRVD/SRV"@ {
        Some("/sap/bc/adt/ddic/srvd/sources/"@ + enc(lower_seq(n)) + "/source/main"@)
    } else if t == "SRVB"@ || t == "SRVB/SVB"@ {
        Some("/sap/bc/adt/businessservices/bindings/"@ + enc(lower_seq(n)) + "/source/main"@)
    } else {
        None
    }
}

/// `prefix`, the encoded `name`, then `suffix`.
fn framed(prefix: &str, name: &str, suffix: &str) -> (r: String)
    ensures
        r@ == prefix@ + enc(name@) + suffix@,
{
    let mut r = prefixed(prefix, name);
    append(&mut r, suffix);
    r
}

/// The URL of the main source of a class or of one of its includes.
fn class_source(name: &str, section: Option<&str>) -> (r: String)
    ensures
        r@ == class_source_uri(name@, opt_str(section)),
{
    let include_type = match section {
        Some(i) => trim(i),
        None => trim("main"),
    };
    if include_type.as_str().is_empty() || eq_ignore_case(include_type.as_str(), "main") {
        framed("/sap/bc/adt/oo/classes/", name, "/source/main")
    } else {
        let mut r = framed("/sap/bc/adt/oo/classes/", name, "/includes/");
        append(&mut r, to_lower(include_type.as_str()).as_str());
        r
    }
}

/// The source URL of an object given by type and name.
pub fn resolve_source_uri(
    object_type: &str,
    object_name: &str,
    parent_name: Option<&str>,
    section: Option<&str>,
) -> (r: Option<String>)
    ensures
        match r {
            Some(u) => spec_resolve_source_uri(
                object_type@,
                object_name@,
                opt_str(parent_name),
                opt_str(section),
            ) == Some(u@),
            None => spec_resolve_source_uri(
                object_type@,
                object_name@,
                opt_str(parent_name),
                opt_str(section),
            ) is None,
        },
{
    let t = canon_string(object_type);
    let t = t.as_str();
    let n = canon_string(object_name);
    let n = n.as_str();
    if str_eq(t, "PROG") || str_eq(t, "PROG/P") {
        Some(framed("/sap/bc/adt/programs/programs/", n, "/source/main"))
    } else if str_eq(t, "PROG/I") || str_eq(t, "INCL") || str_eq(t, "INCLUDE") {
        Some(framed("/sap/bc/adt/programs/includes/", n, "/source/main"))
    } else if str_eq(t, "CLAS") || str_eq(t, "CLAS/OC") {
        Some(class_source(n, section))
    } else if str_eq(t, "INTF") || str_eq(t, "INTF/OI") {
        Some(framed("/sap/bc/adt/oo/interfaces/", n, "/source/main"))
    } else if str_eq(t, "FUGR/FF") {
        match parent_name {
            Some(p) => {
                let group = canon_string(p);
                let mut r = framed("/sap/bc/adt/functions/groups/", group.as_str(), "/fmodules/");
                let tail = framed("", n, "/source/main");
                append(&mut r, tail.as_str());
                proof {
                    reveal_strlit("");
                }
                Some(r)
            },
            None => None,
        }
    } else if str_eq(t, "TABL") || str_eq(t, "TABL/DT") {
        Some(framed("/sap/bc/adt/ddic/tables/", to_lower(n).as_str(), "/source/main"))
    } else if str_eq(t, "STRU") || str_eq(t, "STRU/DS") {
        Some(framed("/sap/bc/adt/ddic/structures/", to_lower(n).as_str(), "/source/main"))
    } else if str_eq(t, "DDLS") || str_eq(t, "DDLS/DF") {
        Some(framed("/sap/bc/adt/ddic/ddl/sources/", to_lower(n).as_str(), "/source/main"))
    } else if str_eq(t, "BDEF") || str_eq(t, "BDEF/BDO") {
        Some(framed("/sap/bc/adt/bo/behaviordefinitions/", to_lower(n).as_str(), "/source/main"))
    } else if str_eq(t, "SRVD") || str_eq(t, "SRVD/SRV") {
        Some(framed("/sap/bc/adt/ddic/srvd/sources/", to_lower(n).as_str(), "/source/main"))
    } else if str_eq(t, "SRVB") || str_eq(t, "SRVB/SVB") {
        Some(framed("/sap/bc/adt/businessservices/bindings/", to_lower(n).as_str(), "/source/main"))
    } else {
        None
    }
}

/// The class URL that an include URL lies under: the classes path and the
/// class name that follows it (trimmed); `None` when the URL holds no
/// classes path or no class name after it.
pub open spec fn spec_parent_object_uri(object_url: Seq<char>) -> Option<Seq<char>> {
    let marker = "/sap/bc/adt/oo/classes/"@;
    match find_seq(object_url, marker) {
        Some(start) => {
            let tail = object_url.skip((start + marker.len()) as int);
            let class_name = trim_seq(split_seq(tail, '/')[0]);
            if class_name.len() == 0 {
                None
            } else {
                Some(marker + class_name)
            }
        },
        None => None,
    }
}

/// `split_seq` gives at least one piece.
pub proof fn lemma_split_nonempty(s: Seq<char>, c: char)
    ensures
        split_seq(s, c).len() >= 1,
{
    reveal_with_fuel(split_seq, 1);
}

/// The class URL that an include URL lies under.
pub fn parent_object_uri_from_include(object_url: &str) -> (r: Option<String>)
    ensures
        match r {
            Some(u) => spec_parent_object_uri(object_url@) == Some(u@),
            None => spec_parent_object_uri(object_url@) is None,
        },
{
    let marker = "/sap/bc/adt/oo/classes/";
    let start = match crate::text::find_str(object_url, marker) {
        Some(i) => i,
        None => {
            return None;
        },
    };
    let chars = crate::text::to_chars(object_url);
    proof {
        reveal_strlit("/sap/bc/adt/oo/classes/");
        crate::text::lemma_find_from(object_url@, marker@, 0);
        assert(find_seq(object_url@, marker@) == Some(start as nat));
        assert(marker@.len() == 23);
        assert(start + 23 <= chars@.len());
    }
    let len = chars.len();
    assert(start + 23 <= len);
    let tail = crate::text::from_chars_range(chars.as_slice(), start + 23, len);
    assert(tail@ == object_url@.skip(start + marker@.len()));
    let pieces = split(tail.as_str(), '/');
    proof {
        lemma_split_nonempty(tail@, '/');
    }
    let class_name = trim(pieces[0].as_str());
    if class_name.as_str().is_empty() {
        None
    } else {
        Some(concat(marker, class_name.as_str()))
    }
}

/// The long name of a creatable object type, accepting short names and a
/// few synonyms in any letter case; `None` for a type that cannot be
/// created.
pub open spec fn spec_normalize_creatable_type(object_type: Seq<char>) -> Option<Seq<char>> {
    let t = canon(object_type);
    if t == "PROG"@ || t == "PROG/P"@ || t == "REPORT"@ {
        Some("PROG/P"@)
    } else if t == "PROG/I"@ || t == "INCL"@ || t == "INCLUDE"@ {
        Some("PROG/I"@)
    } else if t == "CLAS"@ || t == "CLAS/OC"@ || t == "CLASS"@ {
        Some("CLAS/OC"@)
    } else if t == "INTF"@ || t == "INTF/OI"@ || t == "INTERFACE"@ {
        Some("INTF/OI"@)
    } else if t == "FUGR"@ || t == "FUGR/F"@ {
        Some("FUGR/F"@)
    } else if t == "FUGR/FF"@ || t == "FMOD"@ || t == "FUNCTION"@ {
        Some("FUGR/FF"@)
    } else if t == "DEVC"@ || t == "DEVC/K"@ || t == "PACKAGE"@ {
        Some("DEVC/K"@)
    } else if t == "DDLS"@ || t == "DDLS/DF"@ {
        Some("DDLS/DF"@)
    } else if t == "BDEF"@ || t == "BDEF/BDO"@ {
        Some("BDEF/BDO"@)
    } else if t == "SRVD"@ || t == "SRVD/SRV"@ {
        Some("SRVD/SRV"@)
    } else if t == "SRVB"@ || t == "SRVB/SVB"@ {
        Some("SRVB/SVB"@)
    } else {
        None
    }
}

/// The long name of a creatable object type.
pub fn normalize_creatable_type(object_type: &str) -> (r: Option<&'static str>)
    ensures
        match r {
            Some(t) => spec_normalize_creatable_type(object_type@) == Some(t@),
            None => spec_normalize_creatable_type(object_type@) is None,
        },
{
    let t = canon_string(object_type);
    let t = t.as_str();
    if str_eq(t, "PROG") || str_eq(t, "PROG/P") || str_eq(t, "REPORT") {
        Some("PROG/P")
    } else if str_eq(t, "PROG/I") || str_eq(t, "INCL") || str_eq(t, "INCLUDE") {
        Some("PROG/I")
    } else if str_eq(t, "CLAS") || str_eq(t, "CLAS/OC") || str_eq(t, "CLASS") {
        Some("CLAS/OC")
    } else if str_eq(t, "INTF") || str_eq(t, "INTF/OI") || str_eq(t, "INTERFACE") {
        Some("INTF/OI")
    } else if str_eq(t, "FUGR") || str_eq(t, "FUGR/F") {
        Some("FUGR/F")
    } else if str_eq(t, "FUGR/FF") || str_eq(t, "FMOD") || str_eq(t, "FUNCTION") {
        Some("FUGR/FF")
    } else if str_eq(t, "DEVC") || str_eq(t, "DEVC/K") || str_eq(t, "PACKAGE") {
        Some("DEVC/K")
    } else if str_eq(t, "DDLS") || str_eq(t, "DDLS/DF") {
        Some("DDLS/DF")
    } else if str_eq(t, "BDEF") || str_eq(t, "BDEF/BDO") {
        Some("BDEF/BDO")
    } else if str_eq(t, "SRVD") || str_eq(t, "SRVD/SRV") {
        Some("SRVD/SRV")
    } else if str_eq(t, "SRVB") || str_eq(t, "SRVB/SVB") {
        Some("SRVB/SVB")
    } else {
        None
    }
}

/// The long object types whose objects have source text.
pub open spec fn spec_is_source_object_type(object_type: Seq<char>) -> bool {
    let t = canon(object_type);
    ||| t == "PROG/P"@
    ||| t == "PROG/I"@
    ||| t == "CLAS/OC"@
    ||| t == "INTF/OI"@
    ||| t == "FUGR/FF"@
    ||| t == "DDLS/DF"@
    ||| t == "TABL/DT"@
    ||| t == "STRU/DS"@
    ||| t == "BDEF/BDO"@
    ||| t == "SRVD/SRV"@
    ||| t == "SRVB/SVB"@
}

/// Whether objects of this type (trimmed, in any letter case) have
/// source text.
pub fn is_source_object_type(object_type: &str) -> (r: bool)
    ensures
        r == spec_is_source_object_type(object_type@),
{
    let t = canon_string(object_type);
    let t = t.as_str();
    str_eq(t, "PROG/P") || str_eq(t, "PROG/I") || str_eq(t, "CLAS/OC") || str_eq(t, "INTF/OI")
        || str_eq(t, "FUGR/FF") || str_eq(t, "DDLS/DF") || str_eq(t, "TABL/DT") || str_eq(
        t,
        "STRU/DS",
    ) || str_eq(t, "BDEF/BDO") || str_eq(t, "SRVD/SRV") || str_eq(t, "SRVB/SVB")
}

/// The rank of an object type in a dependency-ordered deployment: domains
/// first, then data elements, table types, structures, tables, views,
/// interfaces, classes, programs and includes; anything else last.
pub open spec fn spec_object_type_priority(object_type: Seq<char>) -> u32 {
    let t = canon(object_type);
    if t == "DOMA/DT"@ {
        10
    } else if t == "DTEL/DE"@ {
        20
    } else if t == "TTYP/TT"@ {
        30
    } else if t == "STRU/DS"@ {
        40
    } else if t == "TABL/DT"@ {
        50
    } else if t == "VIEW/V"@ {
        60
    } else if t == "INTF/OI"@ {
        70
    } else if t == "CLAS/OC"@ {
        80
    } else if t == "PROG/P"@ {
        90
    } else if t == "PROG/I"@ {
        100
    } else {
        500
    }
}

/// The deployment rank of an object type.
pub fn object_type_priority(object_type: &str) -> (r: u32)
    ensures
        r == spec_object_type_priority(object_type@),
{
    let t = canon_string(object_type);
    let t = t.as_str();
    if str_eq(t, "DOMA/DT") {
        10
    } else if str_eq(t, "DTEL/DE") {
        20
    } else if str_eq(t, "TTYP/TT") {
        30
    } else if str_eq(t, "STRU/DS") {
        40
    } else if str_eq(t, "TABL/DT") {
        50
    } else if str_eq(t, "VIEW/V") {
        60
    } else if str_eq(t, "INTF/OI") {
        70
    } else if str_eq(t, "CLAS/OC") {
        80
    } else if str_eq(t, "PROG/P") {
        90
    } else if str_eq(t, "PROG/I") {
        100
    } else {
        500
    }
}

/// The last segment of a trace or dump URL or id: trimmed, trailing
/// slashes dropped, what follows the last `/`, trimmed again.
pub open spec fn spec_last_segment(id: Seq<char>) -> Seq<char> {
    let pieces = split_seq(strip_end_char(trim_seq(id), '/'), '/');
    trim_seq(pieces[pieces.len() - 1])
}

/// The last segment of an id or URL.
fn last_segment(id: &str) -> (r: String)
    ensures
        r@ == spec_last_segment(id@),
{
    let trimmed = trim(id);
    let stripped = strip_end(trimmed.as_str(), '/');
    let pieces = split(stripped.as_str(), '/');
    proof {
        lemma_split_nonempty(stripped@, '/');
    }
    trim(pieces[pieces.len() - 1].as_str())
}

/// The id of a trace, from its id or its URL.
pub fn normalize_trace_id(trace_id: &str) -> (r: String)
    ensures
        r@ == spec_last_segment(trace_id@),
{
    last_segment(trace_id)
}

/// The id of a runtime error dump, from its id or its URL.
pub fn normalize_dump_id(dump_id: &str) -> (r: String)
    ensures
        r@ == spec_last_segment(dump_id@),
{
    last_segment(dump_id)
}

/// The file name under which an object's source is exported: the
/// lower-cased name, a type suffix and `.abap`. A class section other
/// than `main` takes the section's name as its suffix; an unknown type
/// takes its own lower-cased name with `/` and spaces turned into `_`.
pub open spec fn spec_default_export_filename(
    object_type: Seq<char>,
    object_name: Seq<char>,
    section: Seq<char>,
) -> Seq<char> {
    let name = lower_seq(trim_seq(object_name));
    let part = lower_seq(trim_seq(section));
    let t = canon(object_type);
    if t == "CLAS"@ || t == "CLAS/OC"@ {
        if part.len() == 0 || part == "main"@ {
            name + ".clas.abap"@
        } else {
            name + "."@ + part + ".abap"@
        }
    } else if t == "INTF"@ || t == "INTF/OI"@ {
        name + ".intf.abap"@
    } else if t == "PROG"@ || t == "PROG/P"@ {
        name + ".prog.abap"@
    } else if t == "PROG/I"@ || t == "INCL"@ || t == "INCLUDE"@ {
        name + ".incl.abap"@
    } else if t == "TABL"@ || t == "TABL/DT"@ {
        name + ".tabl.abap"@
    } else if t == "DDLS"@ || t == "DDLS/DF"@ {
        name + ".ddls.abap"@
    } else if t == "BDEF"@ || t == "BDEF/BDO"@ {
        name + ".bdef.abap"@
    } else if t == "SRVD"@ || t == "SRVD/SRV"@ {
        name + ".srvd.abap"@
    } else if t == "SRVB"@ || t == "SRVB/SVB"@ {
        name + ".srvb.abap"@
    } else {
        let typ = crate::text::replace_seq(
            crate::text::replace_seq(lower_seq(trim_seq(object_type)), "/"@, "_"@),
            " "@,
            "_"@,
        );
        name + "."@ + typ + ".abap"@
    }
}

/// The file name under which an object's source is exported.
pub fn default_export_filename(object_type: &str, object_name: &str, section: &str) -> (r: String)
    ensures
        r@ == spec_default_export_filename(object_type@, object_name@, section@),
{
    let name = to_lower(trim(object_name).as_str());
    let part = to_lower(trim(section).as_str());
    let t = canon_string(object_type);
    let t = t.as_str();
    let suffix: String = if str_eq(t, "CLAS") || str_eq(t, "CLAS/OC") {
        if part.as_str().is_empty() || str_eq(part.as_str(), "main") {
            owned(".clas.abap")
        } else {
            let mut x = concat(".", part.as_str());
            append(&mut x, ".abap");
            x
        }
    } else if str_eq(t, "INTF") || str_eq(t, "INTF/OI") {
        owned(".intf.abap")
    } else if str_eq(t, "PROG") || str_eq(t, "PROG/P") {
        owned(".prog.abap")
    } else if str_eq(t, "PROG/I") || str_eq(t, "INCL") || str_eq(t, "INCLUDE") {
        owned(".incl.abap")
    } else if str_eq(t, "TABL") || str_eq(t, "TABL/DT") {
        owned(".tabl.abap")
    } else if str_eq(t, "DDLS") || str_eq(t, "DDLS/DF") {
        owned(".ddls.abap")
    } else if str_eq(t, "BDEF") || str_eq(t, "BDEF/BDO") {
        owned(".bdef.abap")
    } else if str_eq(t, "SRVD") || str_eq(t, "SRVD/SRV") {
        owned(".srvd.abap")
    } else if str_eq(t, "SRVB") || str_eq(t, "SRVB/SVB") {
        owned(".srvb.abap")
    } else {
        proof {
            reveal_strlit("/");
            reveal_strlit(" ");
        }
        let lowered = to_lower(trim(object_type).as_str());
        let slashes = crate::text::replace(lowered.as_str(), "/", "_");
        let typ = crate::text::replace(slashes.as_str(), " ", "_");
        let mut x = concat(".", typ.as_str());
        append(&mut x, ".abap");
        x
    };
    let r = concat(name.as_str(), suffix.as_str());
    proof {
        assert(r@ =~= spec_default_export_filename(object_type@, object_name@, section@));
    }
    r
}

/// `path` has an extension in the sense of `std::path::Path::extension`, on
/// the platform the library is built for.
pub uninterp spec fn path_has_extension(path: Seq<char>) -> bool;

/// Whether `Path::extension` finds an extension in `path`. Claimed: the
/// answer depends on the text of `path` and on the platform the program is
/// built for (on Windows a backslash also separates components), which is
/// fixed for a build.
#[verifier::external_body]
fn has_extension(path: &str) -> (r: bool)
    ensures
        r == path_has_extension(path@),
{
    std::path::Path::new(path).extension().is_some()
}

/// A single relative path component that no platform reads specially: not
/// empty, not `.` or `..`, without `/` or `\`, and not a drive (no `:`
/// as its second character).
pub open spec fn plain_component(name: Seq<char>) -> bool {
    &&& name.len() > 0
    &&& name != "."@
    &&& name != ".."@
    &&& !name.contains('/')
    &&& !name.contains('\\')
    &&& !(name.len() >= 2 && name[1] == ':')
}

/// A character that separates path components on some platform: `/`
/// everywhere, `\` on Windows.
pub open spec fn is_path_sep(c: char) -> bool {
    c == '/' || c == '\\'
}

/// `path` is relative on every platform: it starts with no separator and
/// names no drive (no `:` as its second character).
pub open spec fn relative_everywhere(path: Seq<char>) -> bool {
    &&& !(path.len() > 0 && is_path_sep(path[0]))
    &&& !(path.len() >= 2 && path[1] == ':')
}

/// `path` opens with what Windows may read as a prefix: a drive (a colon
/// as the second character), or two separators (a UNC, device or
/// verbatim path).
pub open spec fn windows_prefixed(path: Seq<char>) -> bool {
    path.len() >= 2 && (path[1] == ':' || (is_path_sep(path[0]) && is_path_sep(path[1])))
}

/// `path` is a Windows verbatim path: it starts with `\\?\`.
pub open spec fn is_verbatim(path: Seq<char>) -> bool {
    path.len() >= 4 && path[0] == '\\' && path[1] == '\\' && path[2] == '?' && path[3] == '\\'
}

/// `joined` is `base` with `rel` appended as `PathBuf::join` does on some
/// platform: right after `base`, or after a `/` or a `\` separator.
pub open spec fn is_join_of(joined: Seq<char>, base: Seq<char>, rel: Seq<char>) -> bool {
    ||| joined == base + rel
    ||| joined == base + "/"@ + rel
    ||| joined == base + "\\"@ + rel
}

/// `joined` is the relative `rel` pushed onto `base` on Unix or on Windows:
/// `rel` itself under an empty base; right after a base that ends with `/`;
/// after a `/` (Unix) or nothing (Windows) when it ends with `\`; after a
/// `/` or a `\` when it ends with no separator and no colon.
pub open spec fn joins_under(joined: Seq<char>, base: Seq<char>, rel: Seq<char>) -> bool {
    if base.len() == 0 {
        joined == rel
    } else if base.last() == '/' {
        joined == base + rel
    } else if base.last() == '\\' {
        joined == base + rel || joined == base + "/"@ + rel
    } else if base.last() == ':' {
        is_join_of(joined, base, rel)
    } else {
        joined == base + "/"@ + rel || joined == base + "\\"@ + rel
    }
}

/// `PathBuf::join` of two UTF-8 paths, as text. The separator it adds
/// depends on the platform (`/` on Unix, `\` on Windows, none after a
/// separator or a bare drive), and so does which paths count as absolute
/// and which as prefixed. Claimed:
/// - a `rel` that is relative everywhere is pushed onto `base` as
///   `joins_under` says, unless `base` is a Windows verbatim path, whose
///   components Windows rebuilds;
/// - a `rel` that starts with `/` replaces a `base` with no Windows
///   prefix (it is absolute on Unix, rooted on Windows).
/// Nothing is claimed for other arguments.
#[verifier::external_body]
fn join_path(base: &str, rel: &str) -> (r: String)
    ensures
        relative_everywhere(rel@) && !is_verbatim(base@) ==> joins_under(r@, base@, rel@),
        rel@.len() > 0 && rel@[0] == '/' && !windows_prefixed(base@) ==> r@ == rel@,
{
    std::path::PathBuf::from(base).join(rel).to_string_lossy().into_owned()
}

/// Where an exported source is written: the default file name, under the
/// requested output when that is a directory (it ends with a slash or a
/// backslash, names an existing directory, or has no extension), or the
/// requested output itself when it names a file. `output_is_dir` tells
/// whether the trimmed output names an existing directory. `Some((d, n))`
/// when the file name `n` goes under the directory `d`; `None` when the
/// path is `spec_output_file` itself.
pub open spec fn spec_output_join(
    output: Option<Seq<char>>,
    object_type: Seq<char>,
    object_name: Seq<char>,
    section: Seq<char>,
    output_is_dir: bool,
) -> Option<(Seq<char>, Seq<char>)> {
    let default_name = spec_default_export_filename(object_type, object_name, section);
    match output {
        Some(target) if trim_seq(target).len() > 0 => {
            let trimmed = trim_seq(target);
            if trimmed.last() == '/' || trimmed.last() == '\\' || output_is_dir
                || !path_has_extension(trimmed) {
                Some((trimmed, default_name))
            } else {
                None
            }
        },
        _ => None,
    }
}

/// The output path when no directory is involved: the trimmed output when
/// it names a file, else the default file name.
pub open spec fn spec_output_file(
    output: Option<Seq<char>>,
    object_type: Seq<char>,
    object_name: Seq<char>,
    section: Seq<char>,
) -> Seq<char> {
    match output {
        Some(target) if trim_seq(target).len() > 0 => trim_seq(target),
        _ => spec_default_export_filename(object_type, object_name, section),
    }
}

/// Where an exported source is written.
pub fn resolve_output_path(
    output: Option<String>,
    object_type: &str,
    object_name: &str,
    section: &str,
    output_is_dir: bool,
) -> (r: String)
    ensures
        match spec_output_join(opt_text(output), object_type@, object_name@, section@, output_is_dir) {
            Some((dir, name)) => {
                &&& relative_everywhere(name) && !is_verbatim(dir) ==> joins_under(r@, dir, name)
                &&& name.len() > 0 && name[0] == '/' && !windows_prefixed(dir) ==> r@ == name
            },
            None => r@ == spec_output_file(opt_text(output), object_type@, object_name@, section@),
        },
{
    let default_name = default_export_filename(object_type, object_name, section);
    match output {
        Some(target) => {
            let trimmed = trim(target.as_str());
            if !trimmed.as_str().is_empty() {
                let dir_hint = crate::text::ends_with_char(trimmed.as_str(), '/')
                    || crate::text::ends_with_char(trimmed.as_str(), '\\');
                if dir_hint || output_is_dir || !has_extension(trimmed.as_str()) {
                    return join_path(trimmed.as_str(), default_name.as_str());
                }
                return trimmed;
            }
            default_name
        },
        None => default_name,
    }
}


/// A text without outer whitespace and without lower-case ASCII letters
/// is its own canonical form.
pub proof fn lemma_canon_unchanged(s: Seq<char>)
    requires
        s.len() == 0 || (!is_ws(s[0]) && !is_ws(s.last())),
        forall|i: int| 0 <= i < s.len() ==> !('a' <= #[trigger] s[i] && s[i] <= 'z'),
    ensures
        canon(s) == s,
{
    lemma_trim_unchanged(s);
    assert forall|i: int| 0 <= i < s.len() implies #[trigger] upper_char(s[i]) == s[i] by {}
    assert(upper_seq(s) =~= s);
}

/// The canonical form ignores letter case and a space on either side.
pub proof fn lemma_canon_ignores_case_and_padding(x: Seq<char>)
    ensures
        canon(seq![' '] + lower_seq(x) + seq![' ']) == canon(x),
        canon(lower_seq(x)) == canon(x),
{
    lemma_trim_padded(lower_seq(x));
    lemma_trim_lower(x);
    lemma_upper_of_lower(trim_seq(x));
}

/// Every type that objects with source text have has a source URL (a
/// function module given its group), and objects of a package have none.
pub proof fn law_every_source_type_has_a_source_uri(
    object_type: Seq<char>,
    object_name: Seq<char>,
    parent_name: Seq<char>,
    section: Option<Seq<char>>,
)
    ensures
        spec_is_source_object_type(object_type) ==> spec_resolve_source_uri(
            object_type,
            object_name,
            Some(parent_name),
            section,
        ) is Some,
        !spec_is_source_object_type("DEVC/K"@),
{
    reveal_strlit("DEVC/K");
    reveal_strlit("PROG/P");
    reveal_strlit("PROG/I");
    reveal_strlit("CLAS/OC");
    reveal_strlit("INTF/OI");
    reveal_strlit("FUGR/FF");
    reveal_strlit("DDLS/DF");
    reveal_strlit("TABL/DT");
    reveal_strlit("STRU/DS");
    reveal_strlit("BDEF/BDO");
    reveal_strlit("SRVD/SRV");
    reveal_strlit("SRVB/SVB");
    lemma_canon_unchanged("DEVC/K"@);
}


/// Text that starts with `p` still does with more behind it.
proof fn lemma_prefix_extends(a: Seq<char>, b: Seq<char>, p: Seq<char>)
    requires
        has_prefix(a, p),
    ensures
        has_prefix(a + b, p),
{
    assert((a + b).take(p.len() as int) =~= a.take(p.len() as int));
}

/// `l`, then `e`, then the main-source suffix: it starts as `l` does and
/// ends with `/source/main`.
proof fn lemma_framed_source(l: Seq<char>, e: Seq<char>)
    requires
        has_prefix(l, "/sap/bc/adt/"@),
    ensures
        has_prefix(l + e + "/source/main"@, "/sap/bc/adt/"@),
        has_suffix(l + e + "/source/main"@, "/source/main"@),
{
    lemma_prefix_extends(l, e, "/sap/bc/adt/"@);
    lemma_prefix_extends(l + e, "/source/main"@, "/sap/bc/adt/"@);
    assert((l + e + "/source/main"@).skip((l + e).len() as int) =~= "/source/main"@);
}

/// The source URL of an object does not depend on the letter case of its
/// type and name, nor on blanks around the name; and it is an ADT URL that
/// ends with `/source/main`, or names a class section under `/includes/`.
pub proof fn law_source_uri_ignores_case_and_blanks(
    object_type: Seq<char>,
    object_name: Seq<char>,
    parent_name: Option<Seq<char>>,
    section: Option<Seq<char>>,
)
    ensures
        spec_resolve_source_uri(object_type, object_name, parent_name, section) == spec_resolve_source_uri(
            lower_seq(object_type),
            seq![' '] + lower_seq(object_name) + seq![' '],
            parent_name,
            section,
        ),
        spec_resolve_source_uri(object_type, object_name, parent_name, section) matches Some(u) ==> has_prefix(
            u,
            "/sap/bc/adt/"@,
        ) && (has_suffix(u, "/source/main"@) || exists|a: Seq<char>, b: Seq<char>| u == a + "/includes/"@ + b),
{
    lemma_canon_ignores_case_and_padding(object_type);
    lemma_canon_ignores_case_and_padding(object_name);
    reveal_strlit("/sap/bc/adt/");
    reveal_strlit("/sap/bc/adt/programs/programs/");
    assert(has_prefix("/sap/bc/adt/programs/programs/"@, "/sap/bc/adt/"@)) by {
        assert("/sap/bc/adt/programs/programs/"@.take(12) =~= "/sap/bc/adt/"@);
    }
    reveal_strlit("/sap/bc/adt/programs/includes/");
    assert(has_prefix("/sap/bc/adt/programs/includes/"@, "/sap/bc/adt/"@)) by {
        assert("/sap/bc/adt/programs/includes/"@.take(12) =~= "/sap/bc/adt/"@);
    }
    reveal_strlit("/sap/bc/adt/oo/classes/");
    assert(has_prefix("/sap/bc/adt/oo/classes/"@, "/sap/bc/adt/"@)) by {
        assert("/sap/bc/adt/oo/classes/"@.take(12) =~= "/sap/bc/adt/"@);
    }
    reveal_strlit("/sap/bc/adt/oo/interfaces/");
    assert(has_prefix("/sap/bc/adt/oo/interfaces/"@, "/sap/bc/adt/"@)) by {
        assert("/sap/bc/adt/oo/interfaces/"@.take(12) =~= "/sap/bc/adt/"@);
    }
    reveal_strlit("/sap/bc/adt/functions/groups/");
    assert(has_prefix("/sap/bc/adt/functions/groups/"@, "/sap/bc/adt/"@)) by {
        assert("/sap/bc/adt/functions/groups/"@.take(12) =~= "/sap/bc/adt/"@);
    }
    reveal_strlit("/sap/bc/adt/ddic/tables/");
    assert(has_prefix("/sap/bc/adt/ddic/tables/"@, "/sap/bc/adt/"@)) by {
        assert("/sap/bc/adt/ddic/tables/"@.take(12) =~= "/sap/bc/adt/"@);
    }
    reveal_strlit("/sap/bc/adt/ddic/structures/");
    assert(has_prefix("/sap/bc/adt/ddic/structures/"@, "/sap/bc/adt/"@)) by {
        assert("/sap/bc/adt/ddic/structures/"@.take(12) =~= "/sap/bc/adt/"@);
    }
    reveal_strlit("/sap/bc/adt/ddic/ddl/sources/");
    assert(has_prefix("/sap/bc/adt/ddic/ddl/sources/"@, "/sap/bc/adt/"@)) by {
        assert("/sap/bc/adt/ddic/ddl/sources/"@.take(12) =~= "/sap/bc/adt/"@);
    }
    reveal_strlit("/sap/bc/adt/bo/behaviordefinitions/");
    assert(has_prefix("/sap/bc/adt/bo/behaviordefinitions/"@, "/sap/bc/adt/"@)) by {
        assert("/sap/bc/adt/bo/behaviordefinitions/"@.take(12) =~= "/sap/bc/adt/"@);
    }
    reveal_strlit("/sap/bc/adt/ddic/srvd/sources/");
    assert(has_prefix("/sap/bc/adt/ddic/srvd/sources/"@, "/sap/bc/adt/"@)) by {
        assert("/sap/bc/adt/ddic/srvd/sources/"@.take(12) =~= "/sap/bc/adt/"@);
    }
    reveal_strlit("/sap/bc/adt/businessservices/bindings/");
    assert(has_prefix("/sap/bc/adt/businessservices/bindings/"@, "/sap/bc/adt/"@)) by {
        assert("/sap/bc/adt/businessservices/bindings/"@.take(12) =~= "/sap/bc/adt/"@);
    }
    let t = canon(object_type);
    let n = canon(object_name);
    if t == "PROG"@ || t == "PROG/P"@ {
        lemma_framed_source("/sap/bc/adt/programs/programs/"@, enc(n));
    } else if t == "PROG/I"@ || t == "INCL"@ || t == "INCLUDE"@ {
        lemma_framed_source("/sap/bc/adt/programs/includes/"@, enc(n));
    } else if t == "CLAS"@ || t == "CLAS/OC"@ {
        let include_type = trim_seq(
            match section {
                Some(i) => i,
                None => "main"@,
            },
        );
        let l = "/sap/bc/adt/oo/classes/"@;
        if include_type.len() == 0 || lower_seq(include_type) == lower_seq("main"@) {
            lemma_framed_source(l, enc(n));
        } else {
            lemma_prefix_extends(l, enc(n), "/sap/bc/adt/"@);
            lemma_prefix_extends(l + enc(n), "/includes/"@, "/sap/bc/adt/"@);
            lemma_prefix_extends(l + enc(n) + "/includes/"@, lower_seq(include_type), "/sap/bc/adt/"@);
            assert(class_source_uri(n, section) == (l + enc(n)) + "/includes/"@ + lower_seq(include_type));
        }
    } else if t == "INTF"@ || t == "INTF/OI"@ {
        lemma_framed_source("/sap/bc/adt/oo/interfaces/"@, enc(n));
    } else if t == "FUGR/FF"@ {
        if let Some(p) = parent_name {
            let l = "/sap/bc/adt/functions/groups/"@;
            lemma_prefix_extends(l, enc(canon(p)), "/sap/bc/adt/"@);
            lemma_prefix_extends(l + enc(canon(p)), "/fmodules/"@, "/sap/bc/adt/"@);
            lemma_framed_source(l + enc(canon(p)) + "/fmodules/"@, enc(n));
        }
    } else if t == "TABL"@ || t == "TABL/DT"@ {
        lemma_framed_source("/sap/bc/adt/ddic/tables/"@, enc(lower_seq(n)));
    } else if t == "STRU"@ || t == "STRU/DS"@ {
        lemma_framed_source("/sap/bc/adt/ddic/structures/"@, enc(lower_seq(n)));
    } else if t == "DDLS"@ || t == "DDLS/DF"@ {
        lemma_framed_source("/sap/bc/adt/ddic/ddl/sources/"@, enc(lower_seq(n)));
    } else if t == "BDEF"@ || t == "BDEF/BDO"@ {
        lemma_framed_source("/sap/bc/adt/bo/behaviordefinitions/"@, enc(lower_seq(n)));
    } else if t == "SRVD"@ || t == "SRVD/SRV"@ {
        lemma_framed_source("/sap/bc/adt/ddic/srvd/sources/"@, enc(lower_seq(n)));
    } else if t == "SRVB"@ || t == "SRVB/SVB"@ {
        lemma_framed_source("/sap/bc/adt/businessservices/bindings/"@, enc(lower_seq(n)));
    }
}


/// The id that `normalize_trace_id` (and `normalize_dump_id`) gives holds
/// no `/`, has no surrounding whitespace, and is its own normal form.
pub proof fn law_normalized_id_is_a_bare_segment(id: Seq<char>)
    ensures
        !spec_last_segment(id).contains('/'),
        trim_seq(spec_last_segment(id)) == spec_last_segment(id),
        spec_last_segment(spec_last_segment(id)) == spec_last_segment(id),
{
    let pieces = split_seq(strip_end_char(trim_seq(id), '/'), '/');
    lemma_split_last_free(strip_end_char(trim_seq(id), '/'), '/');
    assert(pieces[pieces.len() - 1] == pieces.last());
    let r = spec_last_segment(id);
    lemma_trim_chars(pieces.last(), '/');
    lemma_trim_idempotent(pieces.last());
    if r.len() > 0 {
        assert(r.last() == r[r.len() - 1]);
    }
    assert(strip_end_char(r, '/') == r);
    assert(trim_seq(r) == r);
    lemma_split_absent(r, '/');
    assert(split_seq(strip_end_char(trim_seq(r), '/'), '/') == seq![r]);
}

} // verus!
