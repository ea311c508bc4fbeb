//! Readings of ADT XML payloads as text: escaping, attribute and element
//! values, and object references.
use vstd::prelude::*;

use crate::mcp::pattern::{build_error, captures, escape, regex_build_error, regex_capture_list, regex_escaped};
use crate::text::{
    lemma_find_from, lemma_replace_at_start, lemma_replace_free_prefix, lemma_replace_past_start, occurs_at,
    append, concat, find_seq, find_str, from_chars_range, lemma_replace_absent_char, lemma_replace_char_absent, replace, replace_seq, to_chars,
    trim, trim_seq,
};
use crate::xml::opt_text;

verus! {

/// `value` with the five XML special characters written as entities,
/// ampersands first (`&amp;`, `&lt;`, `&gt;`, `&quot;`, `&apos;`).
pub open spec fn spec_escape_xml(value: Seq<char>) -> Seq<char> {
    replace_seq(
        replace_seq(
            replace_seq(
                replace_seq(replace_seq(value, "&"@, "&amp;"@), "<"@, "&lt;"@),
                ">"@,
                "&gt;"@,
            ),
            "\""@,
            "&quot;"@,
        ),
        "'"@,
        "&apos;"@,
    )
}

/// `value` escaped for use in XML text and attribute values.
pub fn escape_xml(value: &str) -> (r: String)
    ensures
        r@ == spec_escape_xml(value@),
{
    proof {
        reveal_strlit("&");
        reveal_strlit("<");
        reveal_strlit(">");
        reveal_strlit("\"");
        reveal_strlit("'");
    }
    let a = replace(value, "&", "&amp;");
    let b = replace(a.as_str(), "<", "&lt;");
    let c = replace(b.as_str(), ">", "&gt;");
    let d = replace(c.as_str(), "\"", "&quot;");
    replace(d.as_str(), "'", "&apos;")
}

/// The characters of `s` from position `from` on.
fn text_from(s: &str, from: usize) -> (r: String)
    requires
        from <= s@.len(),
    ensures
        r@ == s@.skip(from as int),
{
    let chars = to_chars(s);
    from_chars_range(chars.as_slice(), from, chars.len())
}

/// The first `n` characters of `s`.
fn text_to(s: &str, n: usize) -> (r: String)
    requires
        n <= s@.len(),
    ensures
        r@ == s@.take(n as int),
{
    let chars = to_chars(s);
    from_chars_range(chars.as_slice(), 0, n)
}

/// Where `p` first occurs in `s`, with the facts the callers need.
fn find_in(s: &str, p: &str) -> (r: Option<usize>)
    ensures
        match r {
            Some(i) => find_seq(s@, p@) == Some(i as nat) && i + p@.len() <= s@.len(),
            None => find_seq(s@, p@) is None,
        },
        s@.len() <= usize::MAX,
{
    let chars = to_chars(s);
    let _ = chars.len();
    let r = find_str(s, p);
    proof {
        crate::text::lemma_find_from(s@, p@, 0);
    }
    r
}

/// The value of the first `attribute="…"` in `fragment`: what lies between
/// the opening quote and the next quote; `None` when either is missing.
pub open spec fn spec_attr_value(fragment: Seq<char>, attribute: Seq<char>) -> Option<Seq<char>> {
    let pattern = attribute + "=\""@;
    match find_seq(fragment, pattern) {
        Some(i) => {
            let tail = fragment.skip((i + pattern.len()) as int);
            match find_seq(tail, "\""@) {
                Some(e) => Some(tail.take(e as int)),
                None => None,
            }
        },
        None => None,
    }
}

/// The value of the first `attribute="…"` in `fragment`.
pub fn extract_xml_attr_value(fragment: &str, attribute: &str) -> (r: Option<String>)
    ensures
        opt_text(r) == spec_attr_value(fragment@, attribute@),
{
    let pattern = concat(attribute, "=\"");
    let start = match find_in(fragment, pattern.as_str()) {
        Some(i) => i,
        None => {
            return None;
        },
    };
    let plen = to_chars(pattern.as_str()).len();
    let tail = text_from(fragment, start + plen);
    let end = match find_in(tail.as_str(), "\"") {
        Some(e) => e,
        None => {
            return None;
        },
    };
    Some(text_to(tail.as_str(), end))
}

/// The check variant that an ATC customizing payload names: the `value`
/// attribute that follows the first `name="systemCheckVariant"`.
pub open spec fn spec_system_check_variant(customizing_xml: Seq<char>) -> Option<Seq<char>> {
    let marker = "name=\"systemCheckVariant\""@;
    match find_seq(customizing_xml, marker) {
        Some(i) => spec_attr_value(customizing_xml.skip((i + marker.len()) as int), "value"@),
        None => None,
    }
}

/// The check variant that an ATC customizing payload names.
pub fn extract_system_check_variant(customizing_xml: &str) -> (r: Option<String>)
    ensures
        opt_text(r) == spec_system_check_variant(customizing_xml@),
{
    let marker = "name=\"systemCheckVariant\"";
    let start = match find_in(customizing_xml, marker) {
        Some(i) => i,
        None => {
            return None;
        },
    };
    let mlen = to_chars(marker).len();
    let fragment = text_from(customizing_xml, start + mlen);
    extract_xml_attr_value(fragment.as_str(), "value")
}

/// The trimmed text between the first `<tag>` and the next `</tag>`.
pub open spec fn spec_tag_value(xml: Seq<char>, tag_name: Seq<char>) -> Option<Seq<char>> {
    let open_tag = "<"@ + tag_name + ">"@;
    let close_tag = "</"@ + tag_name + ">"@;
    match find_seq(xml, open_tag) {
        Some(i) => {
            let tail = xml.skip((i + open_tag.len()) as int);
            match find_seq(tail, close_tag) {
                Some(e) => Some(trim_seq(tail.take(e as int))),
                None => None,
            }
        },
        None => None,
    }
}

/// The trimmed text of the first `<tag>…</tag>` element without
/// attributes or prefix.
pub fn extract_xml_tag_value(xml: &str, tag_name: &str) -> (r: Option<String>)
    ensures
        opt_text(r) == spec_tag_value(xml@, tag_name@),
{
    let mut open_tag = concat("<", tag_name);
    append(&mut open_tag, ">");
    let mut close_tag = concat("</", tag_name);
    append(&mut close_tag, ">");
    let start = match find_in(xml, open_tag.as_str()) {
        Some(i) => i,
        None => {
            return None;
        },
    };
    let olen = to_chars(open_tag.as_str()).len();
    let tail = text_from(xml, start + olen);
    let end = match find_in(tail.as_str(), close_tag.as_str()) {
        Some(e) => e,
        None => {
            return None;
        },
    };
    Some(trim(text_to(tail.as_str(), end).as_str()))
}

/// The value of the first of `names` that occurs as an attribute in
/// `attributes`, trying the names in order.
pub open spec fn spec_first_attr(attributes: Seq<char>, names: Seq<Seq<char>>) -> Option<Seq<char>>
    decreases names.len(),
{
    if names.len() == 0 {
        None
    } else {
        match spec_attr_value(attributes, names[0]) {
            Some(v) => Some(v),
            None => spec_first_attr(attributes, names.drop_first()),
        }
    }
}

/// The texts of a list of names.
pub open spec fn names_view(names: Seq<&str>) -> Seq<Seq<char>> {
    names.map_values(|n: &str| n@)
}

/// The value of the first of `names` that occurs as an attribute.
pub fn extract_first_attr(attributes: &str, names: &[&str]) -> (r: Option<String>)
    ensures
        opt_text(r) == spec_first_attr(attributes@, names_view(names@)),
{
    let mut i: usize = 0;
    assert(names_view(names@).skip(0) =~= names_view(names@));
    while i < names.len()
        invariant
            i <= names@.len(),
            spec_first_attr(attributes@, names_view(names@)) == spec_first_attr(
                attributes@,
                names_view(names@).skip(i as int),
            ),
        decreases names@.len() - i,
    {
        let found = extract_xml_attr_value(attributes, names[i]);
        assert(names_view(names@).skip(i as int).drop_first() =~= names_view(names@).skip(
            i + 1,
        ));
        if found.is_some() {
            return found;
        }
        i += 1;
    }
    None
}

/// An object that an XML payload refers to: name, type, URI and, when
/// given, the URI of its parent.
#[derive(Clone, Debug, PartialEq, Eq)]
pub struct XmlReference {
    pub name: String,
    pub object_type: String,
    pub uri: String,
    pub parent_uri: Option<String>,
}

/// An object reference as plain text values: name, type, URI, parent URI.
pub type ReferenceView = (Seq<char>, Seq<char>, Seq<char>, Option<Seq<char>>);

/// A reference as plain text values.
pub open spec fn reference_view(r: XmlReference) -> ReferenceView {
    (r.name@, r.object_type@, r.uri@, opt_text(r.parent_uri))
}

/// The pattern of an element tag with attributes; its group captures the
/// attributes.
pub open spec fn tag_pattern() -> Seq<char> {
    "<[A-Za-z0-9:_-]+\\s+([^>]+)/?>"@
}

/// The attribute names that give a reference's URI, name, type and parent
/// URI, each in order of preference.
pub open spec fn uri_names() -> Seq<Seq<char>> {
    seq!["adtcore:uri"@, "uri"@, "href"@, "xlink:href"@, "link"@]
}

/// The attribute names that give a reference's name.
pub open spec fn name_names() -> Seq<Seq<char>> {
    seq!["adtcore:name"@, "name"@, "obj_name"@]
}

/// The attribute names that give a reference's type.
pub open spec fn type_names() -> Seq<Seq<char>> {
    seq!["adtcore:type"@, "type"@, "obj_type"@]
}

/// The attribute names that give a reference's parent URI.
pub open spec fn parent_names() -> Seq<Seq<char>> {
    seq!["adtcore:parentUri"@, "parentUri"@, "parent_uri"@, "parent-uri"@]
}

/// An optional text, empty when absent.
pub open spec fn or_empty(o: Option<Seq<char>>) -> Seq<char> {
    match o {
        Some(v) => v,
        None => Seq::empty(),
    }
}

/// The reference that the attributes of one tag describe, `None` when
/// they give neither a URI, nor a name, nor a type.
pub open spec fn spec_reference_of(attributes: Seq<char>) -> Option<ReferenceView> {
    let uri = or_empty(spec_first_attr(attributes, uri_names()));
    let name = or_empty(spec_first_attr(attributes, name_names()));
    let object_type = or_empty(spec_first_attr(attributes, type_names()));
    if uri.len() == 0 && name.len() == 0 && object_type.len() == 0 {
        None
    } else {
        Some((name, object_type, uri, spec_first_attr(attributes, parent_names())))
    }
}

/// The references among the matches of the tag pattern, in order.
pub open spec fn spec_references_of(matches: Seq<Seq<Option<Seq<char>>>>) -> Seq<ReferenceView>
    decreases matches.len(),
{
    if matches.len() == 0 {
        Seq::empty()
    } else {
        let groups = matches.last();
        let attributes = if groups.len() > 1 {
            or_empty(groups[1])
        } else {
            Seq::empty()
        };
        let rest = spec_references_of(matches.drop_last());
        match spec_reference_of(attributes) {
            Some(r) => rest.push(r),
            None => rest,
        }
    }
}

/// The object references of an XML payload: one for each element tag with
/// attributes that gives a URI, a name or a type, in document order.
pub open spec fn spec_parse_xml_references(xml: Seq<char>) -> Seq<ReferenceView> {
    if regex_build_error(tag_pattern(), false) is Some {
        Seq::empty()
    } else {
        spec_references_of(regex_capture_list(tag_pattern(), false, xml))
    }
}

/// The value of the first of `names`, or empty.
fn first_attr_or_empty(attributes: &str, names: &[&str]) -> (r: String)
    ensures
        r@ == or_empty(spec_first_attr(attributes@, names_view(names@))),
{
    match extract_first_attr(attributes, names) {
        Some(v) => v,
        None => String::new(),
    }
}

/// The object references of an XML payload.
pub fn parse_xml_references(xml: &str) -> (r: Vec<XmlReference>)
    ensures
        r@.map_values(|x: XmlReference| reference_view(x)) == spec_parse_xml_references(xml@),
{
    let pattern = "<[A-Za-z0-9:_-]+\\s+([^>]+)/?>";
    if build_error(pattern, false).is_some() {
        return Vec::new();
    }
    let matches = captures(pattern, false, xml);
    let ghost all = matches@.map_values(
        |m: Vec<Option<String>>| m@.map_values(|g: Option<String>| opt_text(g)),
    );
    let uri_list = ["adtcore:uri", "uri", "href", "xlink:href", "link"];
    let name_list = ["adtcore:name", "name", "obj_name"];
    let type_list = ["adtcore:type", "type", "obj_type"];
    let parent_list = ["adtcore:parentUri", "parentUri", "parent_uri", "parent-uri"];
    assert(names_view(uri_list@) =~= uri_names());
    assert(names_view(name_list@) =~= name_names());
    assert(names_view(type_list@) =~= type_names());
    assert(names_view(parent_list@) =~= parent_names());
    let mut out: Vec<XmlReference> = Vec::new();
    let mut i: usize = 0;
    while i < matches.len()
        invariant
            i <= matches@.len(),
            all == matches@.map_values(
                |m: Vec<Option<String>>| m@.map_values(|g: Option<String>| opt_text(g)),
            ),
            names_view(uri_list@) == uri_names(),
            names_view(name_list@) == name_names(),
            names_view(type_list@) == type_names(),
            names_view(parent_list@) == parent_names(),
            out@.map_values(|x: XmlReference| reference_view(x)) == spec_references_of(
                all.take(i as int),
            ),
        decreases matches@.len() - i,
    {
        let groups = &matches[i];
        let attributes: String = if groups.len() > 1 {
            match &groups[1] {
                Some(a) => a.clone(),
                None => String::new(),
            }
        } else {
            String::new()
        };
        assert(all.take(i + 1).drop_last() =~= all.take(i as int));
        assert(all.take(i + 1).last() == all[i as int]);
        let uri = first_attr_or_empty(attributes.as_str(), &uri_list);
        let name = first_attr_or_empty(attributes.as_str(), &name_list);
        let object_type = first_attr_or_empty(attributes.as_str(), &type_list);
        if !(uri.as_str().is_empty() && name.as_str().is_empty() && object_type.as_str().is_empty()) {
            let parent_uri = extract_first_attr(attributes.as_str(), &parent_list);
            let ghost before = out@;
            let item = XmlReference { name, object_type, uri, parent_uri };
            let ghost v = reference_view(item);
            out.push(item);
            assert(out@.map_values(|x: XmlReference| reference_view(x)) =~= before.map_values(
                |x: XmlReference| reference_view(x),
            ).push(v));
        }
        i += 1;
    }
    assert(all.take(matches@.len() as int) =~= all);
    out
}

/// The pattern of an element named `tag_name` (escaped), with any
/// namespace prefix and attributes, whose content group is lazy; matched
/// without regard to case and across lines.
pub open spec fn tag_value_pattern(escaped: Seq<char>) -> Seq<char> {
    "(?is)<(?:[A-Za-z0-9_]+:)?"@ + escaped + "\\b[^>]*>(?P<value>.*?)</(?:[A-Za-z0-9_]+:)?"@
        + escaped + ">"@
}

/// The trimmed content of the first element named `tag_name` (with any
/// prefix); `None` when there is none or the pattern does not compile.
pub open spec fn spec_first_tag_value(xml: Seq<char>, tag_name: Seq<char>) -> Option<Seq<char>> {
    let pattern = tag_value_pattern(regex_escaped(tag_name));
    if regex_build_error(pattern, false) is Some {
        None
    } else {
        let found = regex_capture_list(pattern, false, xml);
        if found.len() > 0 && found[0].len() > 1 {
            match found[0][1] {
                Some(v) => Some(trim_seq(v)),
                None => None,
            }
        } else {
            None
        }
    }
}

/// The trimmed content of the first element named `tag_name`.
pub fn extract_first_tag_value(xml: &str, tag_name: &str) -> (r: Option<String>)
    ensures
        opt_text(r) == spec_first_tag_value(xml@, tag_name@),
{
    let escaped = escape(tag_name);
    let mut pattern = concat("(?is)<(?:[A-Za-z0-9_]+:)?", escaped.as_str());
    append(&mut pattern, "\\b[^>]*>(?P<value>.*?)</(?:[A-Za-z0-9_]+:)?");
    append(&mut pattern, escaped.as_str());
    append(&mut pattern, ">");
    assert(pattern@ =~= tag_value_pattern(regex_escaped(tag_name@)));
    if build_error(pattern.as_str(), false).is_some() {
        return None;
    }
    let found = captures(pattern.as_str(), false, xml);
    let ghost all = found@.map_values(
        |m: Vec<Option<String>>| m@.map_values(|g: Option<String>| opt_text(g)),
    );
    if found.len() > 0 && found[0].len() > 1 {
        assert(all[0] == found@[0]@.map_values(|g: Option<String>| opt_text(g)));
        match &found[0][1] {
            Some(v) => Some(trim(v.as_str())),
            None => None,
        }
    } else {
        None
    }
}


/// Escaped text holds no `<`, `>`, `"` or `'`: put in an XML element or a
/// quoted attribute value, it cannot end the value or open markup.
pub proof fn law_escaped_text_has_no_markup(value: Seq<char>)
    ensures
        !spec_escape_xml(value).contains('<'),
        !spec_escape_xml(value).contains('>'),
        !spec_escape_xml(value).contains('"'),
        !spec_escape_xml(value).contains('\''),
{
    reveal_strlit("&");
    reveal_strlit("<");
    reveal_strlit(">");
    reveal_strlit("\"");
    reveal_strlit("'");
    reveal_strlit("&amp;");
    reveal_strlit("&lt;");
    reveal_strlit("&gt;");
    reveal_strlit("&quot;");
    reveal_strlit("&apos;");
    assert("<"@ =~= seq!['<']);
    assert(">"@ =~= seq!['>']);
    assert("\""@ =~= seq!['"']);
    assert("'"@ =~= seq!['\'']);
    let s1 = replace_seq(value, "&"@, "&amp;"@);
    let s2 = replace_seq(s1, "<"@, "&lt;"@);
    let s3 = replace_seq(s2, ">"@, "&gt;"@);
    let s4 = replace_seq(s3, "\""@, "&quot;"@);
    let markup = seq!['<', '>', '"', '\''];
    assert forall|i: int| 0 <= i < 4 implies !spec_escape_xml(value).contains(#[trigger] markup[i]) by {
        let d = markup[i];
        assert(!"&lt;"@.contains(d) && !"&gt;"@.contains(d) && !"&quot;"@.contains(d) && !"&apos;"@.contains(d)) by {
            assert(forall|k: int| 0 <= k < "&lt;"@.len() ==> "&lt;"@[k] != d);
            assert(forall|k: int| 0 <= k < "&gt;"@.len() ==> "&gt;"@[k] != d);
            assert(forall|k: int| 0 <= k < "&quot;"@.len() ==> "&quot;"@[k] != d);
            assert(forall|k: int| 0 <= k < "&apos;"@.len() ==> "&apos;"@[k] != d);
        }
        if i == 0 {
            lemma_replace_char_absent(s1, '<', "&lt;"@, d);
            lemma_replace_char_absent(s2, '>', "&gt;"@, d);
            lemma_replace_char_absent(s3, '"', "&quot;"@, d);
            lemma_replace_char_absent(s4, '\'', "&apos;"@, d);
        } else if i == 1 {
            lemma_replace_char_absent(s2, '>', "&gt;"@, d);
            lemma_replace_char_absent(s3, '"', "&quot;"@, d);
            lemma_replace_char_absent(s4, '\'', "&apos;"@, d);
        } else if i == 2 {
            lemma_replace_char_absent(s3, '"', "&quot;"@, d);
            lemma_replace_char_absent(s4, '\'', "&apos;"@, d);
        } else {
            lemma_replace_char_absent(s4, '\'', "&apos;"@, d);
        }
    }
    assert(markup[0] == '<' && markup[1] == '>' && markup[2] == '"' && markup[3] == '\'');
}


/// Text without `&`, `<`, `>`, `"` or `'` is its own escaped form.
pub proof fn law_plain_text_escapes_to_itself(value: Seq<char>)
    requires
        !value.contains('&'),
        !value.contains('<'),
        !value.contains('>'),
        !value.contains('"'),
        !value.contains('\''),
    ensures
        spec_escape_xml(value) == value,
{
    reveal_strlit("&");
    reveal_strlit("<");
    reveal_strlit(">");
    reveal_strlit("\"");
    reveal_strlit("'");
    assert("&"@ =~= seq!['&']);
    assert("<"@ =~= seq!['<']);
    assert(">"@ =~= seq!['>']);
    assert("\""@ =~= seq!['"']);
    assert("'"@ =~= seq!['\'']);
    lemma_replace_absent_char(value, '&', "&amp;"@);
    lemma_replace_absent_char(value, '<', "&lt;"@);
    lemma_replace_absent_char(value, '>', "&gt;"@);
    lemma_replace_absent_char(value, '"', "&quot;"@);
    lemma_replace_absent_char(value, '\'', "&apos;"@);
}

/// The text an XML reader gives back for escaped text: the entities for
/// `<`, `>`, `"` and `'` resolved first, `&amp;` last.
pub open spec fn spec_unescape_xml(text: Seq<char>) -> Seq<char> {
    replace_seq(
        replace_seq(
            replace_seq(
                replace_seq(replace_seq(text, "&lt;"@, "<"@), "&gt;"@, ">"@),
                "&quot;"@,
                "\""@,
            ),
            "&apos;"@,
            "'"@,
        ),
        "&amp;"@,
        "&"@,
    )
}

/// The place of `<`, `>`, `"` and `'` (1 to 4) in the order of escaping
/// after `&`; 0 for any other character.
spec fn markup_rank(c: char) -> int {
    if c == '<' {
        1
    } else if c == '>' {
        2
    } else if c == '"' {
        3
    } else if c == '\'' {
        4
    } else {
        0
    }
}

/// The entity that stands for `c`; `c` itself where it has none.
spec fn entity_of(c: char) -> Seq<char> {
    if c == '&' {
        "&amp;"@
    } else if c == '<' {
        "&lt;"@
    } else if c == '>' {
        "&gt;"@
    } else if c == '"' {
        "&quot;"@
    } else if c == '\'' {
        "&apos;"@
    } else {
        seq![c]
    }
}

/// `c` part-way through escaping or unescaping: written as its entity when
/// it is `&` and `amp` holds, or when its rank lies in `lo..hi`.
spec fn staged_char(c: char, amp: bool, lo: int, hi: int) -> Seq<char> {
    if (c == '&' && amp) || (lo <= markup_rank(c) && markup_rank(c) < hi && markup_rank(c) > 0) {
        entity_of(c)
    } else {
        seq![c]
    }
}

/// Each character of `s` written as `f` gives it.
spec fn spelled(s: Seq<char>, f: spec_fn(char) -> Seq<char>) -> Seq<char>
    decreases s.len(),
{
    if s.len() == 0 {
        Seq::empty()
    } else {
        f(s[0]) + spelled(s.skip(1), f)
    }
}

/// `s` in the stage given by `amp`, `lo` and `hi`.
spec fn staged(s: Seq<char>, amp: bool, lo: int, hi: int) -> Seq<char> {
    spelled(s, |c: char| staged_char(c, amp, lo, hi))
}

/// The shape of the five entities: at least four characters, `&` first and
/// nowhere else, and none of the other markup characters.
proof fn lemma_entity_shape(c: char)
    requires
        c == '&' || markup_rank(c) > 0,
    ensures
        entity_of(c).len() >= 4,
        entity_of(c)[0] == '&',
        forall|i: int| 1 <= i < entity_of(c).len() ==> entity_of(c)[i] != '&' && markup_rank(
            #[trigger] entity_of(c)[i],
        ) == 0,
{
    reveal_strlit("&amp;");
    reveal_strlit("&lt;");
    reveal_strlit("&gt;");
    reveal_strlit("&quot;");
    reveal_strlit("&apos;");
}

/// Two different entities differ in their second or third character.
proof fn lemma_entities_differ(c: char, d: char)
    requires
        c == '&' || markup_rank(c) > 0,
        d == '&' || markup_rank(d) > 0,
        c != d,
    ensures
        entity_of(c)[1] != entity_of(d)[1] || entity_of(c)[2] != entity_of(d)[2],
{
    reveal_strlit("&amp;");
    reveal_strlit("&lt;");
    reveal_strlit("&gt;");
    reveal_strlit("&quot;");
    reveal_strlit("&apos;");
}

/// Replacing the character `c` by `r` where `f` writes `c` as itself and
/// every other character as `g` does, without `c`.
proof fn lemma_spelled_replace_char(
    s: Seq<char>,
    f: spec_fn(char) -> Seq<char>,
    g: spec_fn(char) -> Seq<char>,
    c: char,
    r: Seq<char>,
)
    requires
        f(c) == seq![c],
        g(c) == r,
        forall|d: char, i: int| d != c && 0 <= i < f(d).len() ==> #[trigger] f(d)[i] != c,
        forall|d: char| d != c ==> #[trigger] g(d) == f(d),
    ensures
        replace_seq(spelled(s, f), seq![c], r) == spelled(s, g),
    decreases s.len(),
{
    let p = seq![c];
    if s.len() == 0 {
        lemma_find_from(spelled(s, f), p, 0);
    } else {
        let x = spelled(s.skip(1), f);
        lemma_spelled_replace_char(s.skip(1), f, g, c, r);
        if s[0] == c {
            let w = p + x;
            assert(w.subrange(0, 1) =~= p);
            lemma_replace_at_start(w, p, r);
            assert(w.skip(1) =~= x);
        } else {
            lemma_replace_free_prefix(f(s[0]), x, p, r);
        }
    }
}

/// Replacing the entity `p` of `c` by `c` where `f` writes `c` as `p`, and
/// every other character either without `&` or as another entity.
proof fn lemma_spelled_replace_entity(
    s: Seq<char>,
    f: spec_fn(char) -> Seq<char>,
    g: spec_fn(char) -> Seq<char>,
    c: char,
    p: Seq<char>,
)
    requires
        p.len() >= 3,
        p[0] == '&',
        f(c) == p,
        g(c) == seq![c],
        forall|d: char| d != c ==> #[trigger] g(d) == f(d),
        forall|d: char|
            d != c ==> (forall|i: int| 0 <= i < f(d).len() ==> #[trigger] f(d)[i] != '&') || (
            #[trigger] f(d).len() >= 3 && f(d)[0] == '&' && (forall|i: int|
                1 <= i < f(d).len() ==> #[trigger] f(d)[i] != '&') && (f(d)[1] != p[1] || f(d)[2]
                != p[2])),
    ensures
        replace_seq(spelled(s, f), p, seq![c]) == spelled(s, g),
    decreases s.len(),
{
    let r = seq![c];
    if s.len() == 0 {
        lemma_find_from(spelled(s, f), p, 0);
    } else {
        let x = spelled(s.skip(1), f);
        lemma_spelled_replace_entity(s.skip(1), f, g, c, p);
        let t = f(s[0]);
        let w = t + x;
        if s[0] == c {
            assert(w.subrange(0, p.len() as int) =~= p);
            lemma_replace_at_start(w, p, r);
            assert(w.skip(p.len() as int) =~= x);
        } else if forall|i: int| 0 <= i < t.len() ==> t[i] != '&' {
            lemma_replace_free_prefix(t, x, p, r);
        } else {
            assert(t.len() >= 3 && t[0] == '&');
            if occurs_at(w, p, 0) {
                assert(w.subrange(0, p.len() as int)[1] == p[1]);
                assert(w.subrange(0, p.len() as int)[2] == p[2]);
            }
            lemma_replace_past_start(w, p, r);
            assert(w.skip(1) =~= t.skip(1) + x);
            lemma_replace_free_prefix(t.skip(1), x, p, r);
            assert(seq![w[0]] + (t.skip(1) + replace_seq(x, p, r)) =~= t + replace_seq(x, p, r));
        }
    }
}

/// With nothing escaped, the staged text is the text itself.
proof fn lemma_staged_plain(s: Seq<char>, lo: int)
    ensures
        staged(s, false, lo, lo) == s,
    decreases s.len(),
{
    if s.len() > 0 {
        lemma_staged_plain(s.skip(1), lo);
        assert(seq![s[0]] + s.skip(1) =~= s);
    }
}

/// Escaping `&` in plain text.
proof fn lemma_escape_amp(s: Seq<char>)
    ensures
        replace_seq(staged(s, false, 1, 1), seq!['&'], "&amp;"@) == staged(s, true, 1, 1),
{
    let f = |c: char| staged_char(c, false, 1, 1);
    let g = |c: char| staged_char(c, true, 1, 1);
    assert forall|d: char, i: int| d != '&' && 0 <= i < f(d).len() implies #[trigger] f(d)[i] != '&' by {}
    assert forall|d: char| d != '&' implies #[trigger] g(d) == f(d) by {}
    lemma_spelled_replace_char(s, f, g, '&', "&amp;"@);
}

/// Escaping the character `c` of rank `k` once `&` and the lower ranks are.
proof fn lemma_escape_rank(s: Seq<char>, c: char, k: int)
    requires
        markup_rank(c) == k,
        1 <= k <= 4,
    ensures
        replace_seq(staged(s, true, 1, k), seq![c], entity_of(c)) == staged(s, true, 1, k + 1),
{
    let f = |d: char| staged_char(d, true, 1, k);
    let g = |d: char| staged_char(d, true, 1, k + 1);
    assert forall|d: char, i: int| d != c && 0 <= i < f(d).len() implies #[trigger] f(d)[i] != c by {
        if d == '&' || (markup_rank(d) > 0 && markup_rank(d) < k) {
            lemma_entity_shape(d);
            if i >= 1 {
                assert(markup_rank(entity_of(d)[i]) == 0);
            }
        }
    }
    assert forall|d: char| d != c implies #[trigger] g(d) == f(d) by {}
    lemma_spelled_replace_char(s, f, g, c, entity_of(c));
}

/// Resolving the entity of the character `c` of rank `k` once the lower
/// ranks are resolved; `&` stays escaped.
proof fn lemma_unescape_rank(s: Seq<char>, c: char, k: int)
    requires
        markup_rank(c) == k,
        1 <= k <= 4,
    ensures
        replace_seq(staged(s, true, k, 5), entity_of(c), seq![c]) == staged(s, true, k + 1, 5),
{
    let f = |d: char| staged_char(d, true, k, 5);
    let g = |d: char| staged_char(d, true, k + 1, 5);
    lemma_entity_shape(c);
    assert forall|d: char| d != c implies #[trigger] g(d) == f(d) by {}
    assert forall|d: char|
        d != c implies (forall|i: int| 0 <= i < f(d).len() ==> #[trigger] f(d)[i] != '&') || (
        #[trigger] f(d).len() >= 3 && f(d)[0] == '&' && (forall|i: int|
            1 <= i < f(d).len() ==> #[trigger] f(d)[i] != '&') && (f(d)[1] != entity_of(c)[1] || f(
            d,
        )[2] != entity_of(c)[2])) by {
        if d == '&' || (markup_rank(d) >= k && markup_rank(d) > 0) {
            lemma_entity_shape(d);
            lemma_entities_differ(d, c);
        }
    }
    lemma_spelled_replace_entity(s, f, g, c, entity_of(c));
}

/// Resolving `&amp;` once every other entity is resolved.
proof fn lemma_unescape_amp(s: Seq<char>)
    ensures
        replace_seq(staged(s, true, 5, 5), "&amp;"@, seq!['&']) == staged(s, false, 5, 5),
{
    let f = |d: char| staged_char(d, true, 5, 5);
    let g = |d: char| staged_char(d, false, 5, 5);
    lemma_entity_shape('&');
    assert forall|d: char| d != '&' implies #[trigger] g(d) == f(d) by {}
    assert forall|d: char|
        d != '&' implies (forall|i: int| 0 <= i < f(d).len() ==> #[trigger] f(d)[i] != '&') || (
        #[trigger] f(d).len() >= 3 && f(d)[0] == '&' && (forall|i: int|
            1 <= i < f(d).len() ==> #[trigger] f(d)[i] != '&') && (f(d)[1] != entity_of('&')[1]
            || f(d)[2] != entity_of('&')[2])) by {}
    lemma_spelled_replace_entity(s, f, g, '&', entity_of('&'));
}

/// Unescaping escaped text gives the text back: `&amp;` is resolved last,
/// so an entity written out in the text survives as text.
pub proof fn law_escape_xml_round_trip(value: Seq<char>)
    ensures
        spec_unescape_xml(spec_escape_xml(value)) == value,
{
    reveal_strlit("&");
    reveal_strlit("<");
    reveal_strlit(">");
    reveal_strlit("\"");
    reveal_strlit("'");
    assert("&"@ =~= seq!['&']);
    assert("<"@ =~= seq!['<']);
    assert(">"@ =~= seq!['>']);
    assert("\""@ =~= seq!['"']);
    assert("'"@ =~= seq!['\'']);
    lemma_staged_plain(value, 1);
    lemma_escape_amp(value);
    lemma_escape_rank(value, '<', 1);
    lemma_escape_rank(value, '>', 2);
    lemma_escape_rank(value, '"', 3);
    lemma_escape_rank(value, '\'', 4);
    lemma_unescape_rank(value, '<', 1);
    lemma_unescape_rank(value, '>', 2);
    lemma_unescape_rank(value, '"', 3);
    lemma_unescape_rank(value, '\'', 4);
    lemma_unescape_amp(value);
    lemma_staged_plain(value, 5);
}

} // verus!
