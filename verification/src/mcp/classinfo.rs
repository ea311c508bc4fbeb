//! What a class is made of: its methods, attributes and interfaces (each
//! sorted, each once), whether it has a test class, and its category.
use vstd::prelude::*;

use crate::errors::NeuroMcpError;
use crate::mcp::create::{invalid_arguments, with_query};
use crate::mcp::encode::encode_path_segment;
use crate::mcp::paths::{build_path_with_query, canon, canon_string, enc};
use crate::mcp::requests::{pairs_view, request_view, HttpMethod, RawRequest, RequestView};
use crate::mcp::xmltext::{reference_view, ReferenceView, XmlReference};
use crate::text::{append, concat, contains_str, find_seq, owned, to_upper, upper_seq};
use crate::tools::{compare_text, lemma_text_lt_trans, text_lt};

verus! {

/// The texts of a list of strings.
pub open spec fn names_of(v: Seq<String>) -> Seq<Seq<char>> {
    v.map_values(|s: String| s@)
}

/// Each text sorts strictly before the next.
pub open spec fn strictly_sorted(s: Seq<Seq<char>>) -> bool {
    forall|i: int, j: int| 0 <= i < j < s.len() ==> text_lt(#[trigger] s[i], #[trigger] s[j])
}

/// Adds `name` to the strictly sorted `names`, unless it is there.
fn add_name(names: &mut Vec<String>, name: String)
    requires
        strictly_sorted(names_of(old(names)@)),
    ensures
        strictly_sorted(names_of(final(names)@)),
        forall|x: Seq<char>|
            names_of(final(names)@).contains(x) <==> (names_of(old(names)@).contains(x) || x == name@),
{
    let ghost before = names_of(names@);
    let mut pos: usize = 0;
    let mut found = false;
    while pos < names.len()
        invariant_except_break
            !found,
        invariant
            pos <= names@.len(),
            names_of(names@) == before,
            strictly_sorted(before),
            forall|k: int| 0 <= k < pos ==> text_lt(#[trigger] before[k], name@),
        ensures
            pos <= names@.len(),
            names_of(names@) == before,
            forall|k: int| 0 <= k < pos ==> text_lt(#[trigger] before[k], name@),
            found ==> pos < names@.len() && before[pos as int] == name@,
            !found && pos < names@.len() ==> text_lt(name@, before[pos as int]),
        decreases names@.len() - pos,
    {
        assert(before[pos as int] == names@[pos as int]@);
        let c = compare_text(names[pos].as_str(), name.as_str());
        if c == 0 {
            found = true;
            break;
        } else if c > 0 {
            break;
        }
        pos += 1;
    }
    if found {
        assert(before.contains(name@)) by {
            assert(before[pos as int] == name@);
        }
        return;
    }
    let ghost n = name@;
    names.insert(pos, name);
    let ghost after = names_of(names@);
    proof {
        assert(after =~= before.insert(pos as int, n));
        assert forall|i: int, j: int| 0 <= i < j < after.len() implies text_lt(#[trigger] after[i], #[trigger] after[j]) by {
            if j < pos {
            } else if j == pos {
            } else if i < pos {
                if j - 1 > pos {
                    lemma_text_lt_trans(n, before[pos as int], before[j - 1]);
                }
                lemma_text_lt_trans(before[i], n, before[j - 1]);
            } else if i == pos {
                if j - 1 > pos {
                    lemma_text_lt_trans(n, before[pos as int], before[j - 1]);
                }
            } else {
            }
        }
        assert forall|x: Seq<char>| after.contains(x) <==> (before.contains(x) || x == n) by {
            if after.contains(x) {
                let i = choose|i: int| 0 <= i < after.len() && after[i] == x;
                if i < pos {
                    assert(before[i] == x);
                } else if i > pos {
                    assert(before[i - 1] == x);
                }
            }
            if before.contains(x) {
                let j = choose|j: int| 0 <= j < before.len() && before[j] == x;
                if j < pos {
                    assert(after[j] == x);
                } else {
                    assert(after[j + 1] == x);
                }
            }
            if x == n {
                assert(after[pos as int] == n);
            }
        }
    }
}

/// How a component of a class is counted, by its type.
#[derive(Clone, Copy, Debug, PartialEq, Eq, Structural)]
pub enum ComponentKind {
    Method,
    Attribute,
    Interface,
    TestClass,
    Other,
}

/// The kind of a component type: the first of `METHOD`, `ATTR`, `INTF` and
/// `TEST` that its upper-cased type contains.
pub open spec fn component_kind(object_type: Seq<char>) -> ComponentKind {
    let t = upper_seq(object_type);
    if find_seq(t, "METHOD"@) is Some {
        ComponentKind::Method
    } else if find_seq(t, "ATTR"@) is Some {
        ComponentKind::Attribute
    } else if find_seq(t, "INTF"@) is Some {
        ComponentKind::Interface
    } else if find_seq(t, "TEST"@) is Some {
        ComponentKind::TestClass
    } else {
        ComponentKind::Other
    }
}

fn kind_of(object_type: &str) -> (r: ComponentKind)
    ensures
        r == component_kind(object_type@),
{
    let t = to_upper(object_type);
    if contains_str(t.as_str(), "METHOD") {
        ComponentKind::Method
    } else if contains_str(t.as_str(), "ATTR") {
        ComponentKind::Attribute
    } else if contains_str(t.as_str(), "INTF") {
        ComponentKind::Interface
    } else if contains_str(t.as_str(), "TEST") {
        ComponentKind::TestClass
    } else {
        ComponentKind::Other
    }
}

/// The category of a class by its source.
#[derive(Clone, Copy, Debug, PartialEq, Eq, Structural)]
pub enum ClassCategory {
    Abstract,
    Final,
    Regular,
}

/// The category of a class: abstract when its upper-cased source says
/// ` DEFINITION ABSTRACT`, else final when it says ` DEFINITION FINAL`.
pub open spec fn category_of(source: Seq<char>) -> ClassCategory {
    let s = upper_seq(source);
    if find_seq(s, " DEFINITION ABSTRACT"@) is Some {
        ClassCategory::Abstract
    } else if find_seq(s, " DEFINITION FINAL"@) is Some {
        ClassCategory::Final
    } else {
        ClassCategory::Regular
    }
}

/// What a class is made of.
#[derive(Debug)]
pub struct ClassSummary {
    pub category: ClassCategory,
    pub has_test_class: bool,
    pub methods: Vec<String>,
    pub attributes: Vec<String>,
    pub interfaces: Vec<String>,
}

/// The names of the components of `kind`, as a set.
pub open spec fn named(refs: Seq<ReferenceView>, kind: ComponentKind, x: Seq<char>) -> bool {
    exists|i: int| 0 <= i < refs.len() && component_kind(#[trigger] refs[i].1) == kind && refs[i].0 == x
}

/// `names` lists each component of `kind` once, in sorted order.
pub open spec fn lists_kind(names: Seq<String>, refs: Seq<ReferenceView>, kind: ComponentKind) -> bool {
    &&& strictly_sorted(names_of(names))
    &&& forall|x: Seq<char>| names_of(names).contains(x) <==> named(refs, kind, x)
}

/// The summary of a class from the components its structure lists and its
/// source.
pub open spec fn summary_ok(s: ClassSummary, refs: Seq<ReferenceView>, source: Seq<char>) -> bool {
    &&& s.category == category_of(source)
    &&& s.has_test_class == (exists|i: int| 0 <= i < refs.len() && component_kind(#[trigger] refs[i].1) == ComponentKind::TestClass)
    &&& lists_kind(s.methods@, refs, ComponentKind::Method)
    &&& lists_kind(s.attributes@, refs, ComponentKind::Attribute)
    &&& lists_kind(s.interfaces@, refs, ComponentKind::Interface)
}

/// Summarizes a class from its structure's components and its source.
pub fn summarize_class(refs: &Vec<XmlReference>, source: &str) -> (r: ClassSummary)
    ensures
        summary_ok(r, refs@.map_values(|x: XmlReference| reference_view(x)), source@),
{
    let ghost rv = refs@.map_values(|x: XmlReference| reference_view(x));
    let mut methods: Vec<String> = Vec::new();
    let mut attributes: Vec<String> = Vec::new();
    let mut interfaces: Vec<String> = Vec::new();
    let mut has_test_class = false;
    let mut i: usize = 0;
    while i < refs.len()
        invariant
            i <= refs@.len(),
            rv == refs@.map_values(|x: XmlReference| reference_view(x)),
            strictly_sorted(names_of(methods@)),
            strictly_sorted(names_of(attributes@)),
            strictly_sorted(names_of(interfaces@)),
            forall|x: Seq<char>| names_of(methods@).contains(x) <==> named(rv.take(i as int), ComponentKind::Method, x),
            forall|x: Seq<char>| names_of(attributes@).contains(x) <==> named(rv.take(i as int), ComponentKind::Attribute, x),
            forall|x: Seq<char>| names_of(interfaces@).contains(x) <==> named(rv.take(i as int), ComponentKind::Interface, x),
            has_test_class == (exists|k: int| 0 <= k < i && component_kind(#[trigger] rv[k].1) == ComponentKind::TestClass),
        decreases refs@.len() - i,
    {
        let ghost prev = rv.take(i as int);
        let ghost next = rv.take(i + 1);
        assert(next =~= prev.push(rv[i as int]));
        assert(rv[i as int] == reference_view(refs@[i as int]));
        let kind = kind_of(refs[i].object_type.as_str());
        proof {
            assert forall|k: ComponentKind, x: Seq<char>| #[trigger] named(next, k, x) <==> (named(prev, k, x) || (
            component_kind(rv[i as int].1) == k && rv[i as int].0 == x)) by {
                if named(next, k, x) {
                    let j = choose|j: int| 0 <= j < next.len() && component_kind(#[trigger] next[j].1) == k && next[j].0 == x;
                    if j < prev.len() {
                        assert(prev[j] == next[j]);
                    }
                }
                if named(prev, k, x) {
                    let j = choose|j: int| 0 <= j < prev.len() && component_kind(#[trigger] prev[j].1) == k && prev[j].0 == x;
                    assert(next[j] == prev[j]);
                }
                if component_kind(rv[i as int].1) == k && rv[i as int].0 == x {
                    assert(next[i as int] == rv[i as int]);
                }
            }
        }
        match kind {
            ComponentKind::Method => add_name(&mut methods, refs[i].name.clone()),
            ComponentKind::Attribute => add_name(&mut attributes, refs[i].name.clone()),
            ComponentKind::Interface => add_name(&mut interfaces, refs[i].name.clone()),
            ComponentKind::TestClass => {
                has_test_class = true;
            },
            ComponentKind::Other => {},
        }
        i += 1;
    }
    assert(rv.take(refs@.len() as int) =~= rv);
    let upper = to_upper(source);
    let category = if contains_str(upper.as_str(), " DEFINITION ABSTRACT") {
        ClassCategory::Abstract
    } else if contains_str(upper.as_str(), " DEFINITION FINAL") {
        ClassCategory::Final
    } else {
        ClassCategory::Regular
    };
    ClassSummary { category, has_test_class, methods, attributes, interfaces }
}

/// The two reads of a class summary: its structure (up to 100
/// components) and its main source.
pub open spec fn spec_class_info_requests(class_name: Seq<char>) -> (RequestView, RequestView) {
    (
        (
            HttpMethod::Get,
            with_query(
                "/sap/bc/adt/cai/objectexplorer/objects"@,
                seq![("objectName"@, canon(class_name)), ("maxResults"@, "100"@)],
            ),
            None,
            None,
            Some("application/xml"@),
        ),
        (
            HttpMethod::Get,
            "/sap/bc/adt/oo/classes/"@ + enc(canon(class_name)) + "/source/main"@,
            None,
            None,
            Some("text/plain"@),
        ),
    )
}

/// The two reads of a class summary (the class must be given), with the
/// class name as read.
pub fn class_info_requests(class_name: Option<String>, tool_name: &str) -> (r: Result<(RawRequest, RawRequest, String), NeuroMcpError>)
    ensures
        match class_name {
            None => r matches Err(NeuroMcpError::InvalidArguments { tool, message }) && tool@
                == tool_name@ && message@ == "class_name/className/name is required"@,
            Some(c) => r matches Ok((s, q, n)) && (request_view(s), request_view(q)) == spec_class_info_requests(c@)
                && n@ == canon(c@),
        },
{
    let class_name = match class_name {
        Some(c) => c,
        None => {
            return Err(invalid_arguments(tool_name, "class_name/className/name is required"));
        },
    };
    let name = canon_string(class_name.as_str());
    let mut query: Vec<(String, String)> = Vec::new();
    query.push((owned("objectName"), name.clone()));
    query.push((owned("maxResults"), owned("100")));
    assert(query@.len() == 2);
    assert(pairs_view(query@) =~= seq![("objectName"@, canon(class_name@)), ("maxResults"@, "100"@)]);
    let structure = RawRequest {
        method: HttpMethod::Get,
        path: build_path_with_query("/sap/bc/adt/cai/objectexplorer/objects", &query),
        body: None,
        content_type: None,
        accept: Some(owned("application/xml")),
    };
    let mut source_path = concat("/sap/bc/adt/oo/classes/", encode_path_segment(name.as_str()).as_str());
    append(&mut source_path, "/source/main");
    let source = RawRequest {
        method: HttpMethod::Get,
        path: source_path,
        body: None,
        content_type: None,
        accept: Some(owned("text/plain")),
    };
    Ok((structure, source, name))
}

} // verus!
