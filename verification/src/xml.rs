//! Search responses: the object references among the events of an XML
//! reader, and the choice between the JSON and the XML reading.
use vstd::prelude::*;

use quick_xml::events::Event;

use vstd::string::StringSliceAdditionalSpecFns;

use crate::errors::AdtClientError;
use crate::text::{concat, trim, trim_seq};
use crate::types::{AdtObjectSummary, AdtSearchResponse};

verus! {

/// quick_xml's pull reader.
#[verifier::external_type_specification]
#[verifier::external_body]
#[verifier::reject_recursive_types(R)]
pub struct ExXmlReader<R>(quick_xml::Reader<R>);

/// One attribute of an element: its raw (possibly prefixed) key and its
/// value as the document writes it.
#[derive(Clone, Debug)]
pub struct XmlAttribute {
    pub key: Vec<u8>,
    pub value: String,
}

/// What the reader yields, as far as the search response needs it.
#[derive(Debug)]
pub enum XmlEvent {
    /// A start or empty-element tag: its local name and its attributes, a
    /// malformed attribute as the reader's message.
    Element { local_name: Vec<u8>, attributes: Vec<Result<XmlAttribute, String>> },
    /// Any other markup or text.
    Other,
    /// The end of the document.
    Eof,
    /// A syntax error, as the reader's message.
    Error(String),
}

/// The events that a reader still has to yield, up to and including the
/// first end of input or error.
pub uninterp spec fn xml_pending(reader: quick_xml::Reader<&[u8]>) -> Seq<XmlEvent>;

/// The events of `payload` as quick_xml reads it with text trimmed, up to
/// and including the first end of input or error.
pub uninterp spec fn xml_events_of(payload: Seq<u8>) -> Seq<XmlEvent>;

/// An event after which the reader yields nothing new.
pub open spec fn is_terminal(e: XmlEvent) -> bool {
    e is Eof || e is Error
}

/// A reader over `payload` that trims whitespace around text
/// (`Reader::from_reader`, `trim_text(true)`). Claimed: its pending events
/// are those of the payload, and they end with the end of input or an
/// error, which comes last and nowhere else.
#[verifier::external_body]
fn xml_reader(payload: &[u8]) -> (r: quick_xml::Reader<&[u8]>)
    ensures
        xml_pending(r) == xml_events_of(payload@),
        xml_pending(r).len() > 0,
        is_terminal(xml_pending(r).last()),
        forall|i: int| 0 <= i < xml_pending(r).len() - 1 ==> !is_terminal(#[trigger] xml_pending(r)[i]),
{
    let mut reader = quick_xml::Reader::from_reader(payload);
    reader.config_mut().trim_text(true);
    reader
}

/// The next event of the reader (`Reader::read_event`), with a start or
/// empty-element tag given by its local name and its attributes in
/// document order. Claimed: it is the first pending event, and the rest
/// stay pending.
#[verifier::external_body]
fn xml_next_event(reader: &mut quick_xml::Reader<&[u8]>) -> (r: XmlEvent)
    requires
        xml_pending(*old(reader)).len() > 0,
    ensures
        r == xml_pending(*old(reader))[0],
        xml_pending(*final(reader)) == xml_pending(*old(reader)).drop_first(),
{
    match reader.read_event() {
        Ok(Event::Start(e)) | Ok(Event::Empty(e)) => XmlEvent::Element {
            local_name: e.local_name().as_ref().as_bytes().to_vec(),
            attributes: e.attributes().map(|a| a.map(|a| XmlAttribute {
                key: a.key.as_ref().as_bytes().to_vec(),
                value: a.value.into_owned(),
            }).map_err(|error| error.to_string())).collect(),
        },
        Ok(Event::Eof) => XmlEvent::Eof,
        Ok(_) => XmlEvent::Other,
        Err(error) => XmlEvent::Error(error.to_string()),
    }
}

/// `key` without its namespace prefix: what follows its last `:`, or all
/// of it when it holds none.
pub open spec fn spec_xml_local_name(key: Seq<u8>) -> Seq<u8>
    decreases key.len(),
{
    if key.len() == 0 {
        key
    } else if key.last() == 58u8 {
        Seq::empty()
    } else {
        spec_xml_local_name(key.drop_last()).push(key.last())
    }
}

proof fn lemma_local_name_from(key: Seq<u8>, i: int)
    requires
        0 <= i <= key.len(),
        i == 0 || key[i - 1] == 58u8,
        forall|k: int| i <= k < key.len() ==> key[k] != 58u8,
    ensures
        spec_xml_local_name(key) == key.subrange(i, key.len() as int),
    decreases key.len(),
{
    if key.len() > i {
        lemma_local_name_from(key.drop_last(), i);
        assert(key.subrange(i, key.len() as int) =~= key.drop_last().subrange(
            i,
            key.len() - 1,
        ).push(key.last()));
    } else {
        assert(key.subrange(i, key.len() as int) =~= Seq::<u8>::empty());
    }
}

/// The local part of an XML name: what follows its last `:`.
pub fn xml_local_name(value: &[u8]) -> (r: &[u8])
    ensures
        r@ == spec_xml_local_name(value@),
{
    let mut i: usize = value.len();
    while i > 0
        invariant
            i <= value@.len(),
            forall|k: int| i <= k < value@.len() ==> value@[k] != 58u8,
        ensures
            i == 0 || value@[i - 1] == 58u8,
        decreases i,
    {
        if value[i - 1] == 58u8 {
            break;
        }
        i -= 1;
    }
    proof {
        lemma_local_name_from(value@, i as int);
    }
    vstd::slice::slice_subrange(value, i, value.len())
}

/// Whether two byte strings are equal.
pub fn bytes_eq(a: &[u8], b: &[u8]) -> (r: bool)
    ensures
        r == (a@ == b@),
{
    if a.len() != b.len() {
        return false;
    }
    let mut i: usize = 0;
    while i < a.len()
        invariant
            a@.len() == b@.len(),
            i <= a@.len(),
            forall|k: int| 0 <= k < i ==> a@[k] == b@[k],
        decreases a@.len() - i,
    {
        if a[i] != b[i] {
            return false;
        }
        i += 1;
    }
    assert(a@ =~= b@);
    true
}

/// An attribute value, or nothing when it is blank.
pub open spec fn normalized_value(v: Seq<char>) -> Option<Seq<char>> {
    if trim_seq(v).len() == 0 {
        None
    } else {
        Some(v)
    }
}

/// Which field of an object reference an attribute with local name
/// `local` sets: 0 the URI, 1 the name, 2 the type, 3 the package, 4 none.
pub open spec fn attribute_slot(local: Seq<u8>) -> int {
    if local == "uri".spec_bytes() {
        0
    } else if local == "name".spec_bytes() {
        1
    } else if local == "type".spec_bytes() {
        2
    } else if local == "packageName".spec_bytes() {
        3
    } else {
        4
    }
}

/// The value that the last well-formed attribute for `slot` sets, blank
/// ones setting nothing; `None` when no attribute is for `slot`.
pub open spec fn field_value(attrs: Seq<Result<XmlAttribute, String>>, slot: int) -> Option<
    Seq<char>,
>
    decreases attrs.len(),
{
    if attrs.len() == 0 {
        None
    } else {
        match attrs.last() {
            Ok(a) => if attribute_slot(spec_xml_local_name(a.key@)) == slot {
                normalized_value(a.value@)
            } else {
                field_value(attrs.drop_last(), slot)
            },
            Err(_) => field_value(attrs.drop_last(), slot),
        }
    }
}

/// The message of the first malformed attribute, if any.
pub open spec fn first_attribute_error(attrs: Seq<Result<XmlAttribute, String>>) -> Option<
    Seq<char>,
>
    decreases attrs.len(),
{
    if attrs.len() == 0 {
        None
    } else {
        match attrs[0] {
            Err(m) => Some(m@),
            Ok(_) => first_attribute_error(attrs.drop_first()),
        }
    }
}

/// An object summary as plain text values: URI, name, type, package.
pub type SummaryView = (Seq<char>, Seq<char>, Option<Seq<char>>, Option<Seq<char>>);

/// The text of an optional string.
pub open spec fn opt_text(o: Option<String>) -> Option<Seq<char>> {
    match o {
        Some(s) => Some(s@),
        None => None,
    }
}

/// An object summary as plain text values.
pub open spec fn summary_view(o: AdtObjectSummary) -> SummaryView {
    (o.uri@, o.name@, opt_text(o.object_type), opt_text(o.package))
}

/// The prefix of a malformed-attribute report.
pub open spec fn attribute_error_prefix() -> Seq<char> {
    "invalid ADT XML attribute in search response: "@
}

/// What an `objectReference` element's attributes describe: the first
/// malformed attribute is an error; else an object when both its URI and
/// its name are set, nothing otherwise.
pub open spec fn spec_object_reference(attrs: Seq<Result<XmlAttribute, String>>) -> Result<
    Option<SummaryView>,
    Seq<char>,
> {
    match first_attribute_error(attrs) {
        Some(m) => Err(attribute_error_prefix() + m),
        None => match (field_value(attrs, 0), field_value(attrs, 1)) {
            (Some(uri), Some(name)) => Ok(
                Some((uri, name, field_value(attrs, 2), field_value(attrs, 3))),
            ),
            _ => Ok(None),
        },
    }
}

proof fn lemma_prefix_step(attrs: Seq<Result<XmlAttribute, String>>, i: int)
    requires
        0 <= i < attrs.len(),
    ensures
        attrs.subrange(0, i + 1).drop_last() == attrs.subrange(0, i),
        attrs.subrange(0, i + 1).last() == attrs[i],
{
    assert(attrs.subrange(0, i + 1).drop_last() =~= attrs.subrange(0, i));
}

proof fn lemma_first_error_prefix(attrs: Seq<Result<XmlAttribute, String>>, i: int)
    requires
        0 <= i <= attrs.len(),
        forall|k: int| 0 <= k < i ==> attrs[k] is Ok,
    ensures
        first_attribute_error(attrs) == first_attribute_error(attrs.subrange(i, attrs.len() as int)),
    decreases i,
{
    if i > 0 {
        lemma_first_error_prefix(attrs.drop_first(), i - 1);
        assert(attrs.drop_first().subrange(i - 1, attrs.len() - 1) =~= attrs.subrange(
            i,
            attrs.len() as int,
        ));
    } else {
        assert(attrs.subrange(0, attrs.len() as int) =~= attrs);
    }
}

/// The attribute value, or nothing when it is blank.
fn normalize(value: &String) -> (r: Option<String>)
    ensures
        opt_text(r) == normalized_value(value@),
{
    let trimmed = trim(value.as_str());
    if trimmed.as_str().is_empty() {
        None
    } else {
        Some(value.clone())
    }
}

/// The object that the attributes of an `objectReference` element
/// describe; `None` when its URI or its name is missing or blank.
pub fn parse_xml_object_reference(attributes: &Vec<Result<XmlAttribute, String>>) -> (r: Result<
    Option<AdtObjectSummary>,
    AdtClientError,
>)
    ensures
        match spec_object_reference(attributes@) {
            Ok(None) => r matches Ok(None),
            Ok(Some(v)) => r matches Ok(Some(o)) && summary_view(o) == v,
            Err(m) => r matches Err(AdtClientError::Protocol(e)) && e@ == m,
        },
{
    let mut uri: Option<String> = None;
    let mut name: Option<String> = None;
    let mut object_type: Option<String> = None;
    let mut package: Option<String> = None;
    let mut i: usize = 0;
    while i < attributes.len()
        invariant
            i <= attributes@.len(),
            forall|k: int| 0 <= k < i ==> attributes@[k] is Ok,
            opt_text(uri) == field_value(attributes@.subrange(0, i as int), 0),
            opt_text(name) == field_value(attributes@.subrange(0, i as int), 1),
            opt_text(object_type) == field_value(attributes@.subrange(0, i as int), 2),
            opt_text(package) == field_value(attributes@.subrange(0, i as int), 3),
        decreases attributes@.len() - i,
    {
        proof {
            lemma_prefix_step(attributes@, i as int);
        }
        match &attributes[i] {
            Err(e) => {
                proof {
                    lemma_first_error_prefix(attributes@, i as int);
                }
                return Err(
                    AdtClientError::Protocol(
                        concat("invalid ADT XML attribute in search response: ", e.as_str()),
                    ),
                );
            },
            Ok(a) => {
                let local = xml_local_name(a.key.as_slice());
                let value = normalize(&a.value);
                if bytes_eq(local, "uri".as_bytes()) {
                    uri = value;
                } else if bytes_eq(local, "name".as_bytes()) {
                    name = value;
                } else if bytes_eq(local, "type".as_bytes()) {
                    object_type = value;
                } else if bytes_eq(local, "packageName".as_bytes()) {
                    package = value;
                }
            },
        }
        i += 1;
    }
    proof {
        assert(attributes@.subrange(0, attributes@.len() as int) =~= attributes@);
        lemma_first_error_prefix(attributes@, attributes@.len() as int);
    }
    match (uri, name) {
        (Some(uri), Some(name)) => Ok(Some(AdtObjectSummary { uri, name, object_type, package })),
        _ => Ok(None),
    }
}

/// The prefix of a report on a malformed document.
pub open spec fn xml_error_prefix() -> Seq<char> {
    "failed to parse ADT XML search response: "@
}

/// The objects that a run of reader events lists, in document order: each
/// `objectReference` element with a URI and a name gives one; the run ends
/// at the end of input; a syntax error or a malformed attribute ends it in
/// failure.
pub open spec fn spec_search_from_events(events: Seq<XmlEvent>) -> Result<
    Seq<SummaryView>,
    Seq<char>,
>
    decreases events.len(),
{
    if events.len() == 0 {
        Ok(Seq::empty())
    } else {
        match events[0] {
            XmlEvent::Eof => Ok(Seq::empty()),
            XmlEvent::Error(m) => Err(xml_error_prefix() + m@),
            XmlEvent::Other => spec_search_from_events(events.drop_first()),
            XmlEvent::Element { local_name, attributes } => if local_name@
                == "objectReference".spec_bytes() {
                match spec_object_reference(attributes@) {
                    Err(m) => Err(m),
                    Ok(Some(o)) => prepend_found(seq![o], spec_search_from_events(events.drop_first())),
                    Ok(None) => spec_search_from_events(events.drop_first()),
                }
            } else {
                spec_search_from_events(events.drop_first())
            },
        }
    }
}

/// `found` ahead of what the rest of the events give.
pub open spec fn prepend_found(found: Seq<SummaryView>, rest: Result<Seq<SummaryView>, Seq<char>>) -> Result<
    Seq<SummaryView>,
    Seq<char>,
> {
    match rest {
        Ok(r) => Ok(found + r),
        Err(m) => Err(m),
    }
}

proof fn lemma_prepend_assoc(
    a: Seq<SummaryView>,
    b: Seq<SummaryView>,
    rest: Result<Seq<SummaryView>, Seq<char>>,
)
    ensures
        prepend_found(a, prepend_found(b, rest)) == prepend_found(a + b, rest),
{
    if let Ok(r) = rest {
        assert((a + b) + r =~= a + (b + r));
    }
}

/// The objects of an ADT XML search response, in document order.
pub open spec fn spec_search_xml(payload: Seq<u8>) -> Result<Seq<SummaryView>, Seq<char>> {
    spec_search_from_events(xml_events_of(payload))
}

/// The objects found, as plain text values.
pub open spec fn objects_view(objects: Seq<AdtObjectSummary>) -> Seq<SummaryView> {
    objects.map_values(|o: AdtObjectSummary| summary_view(o))
}

/// Reads an ADT XML search response: the objects of its `objectReference`
/// elements that carry a URI and a name.
pub fn parse_search_xml_response(payload: &[u8]) -> (r: Result<AdtSearchResponse, AdtClientError>)
    ensures
        match spec_search_xml(payload@) {
            Ok(v) => r matches Ok(resp) && objects_view(resp.objects@) == v,
            Err(m) => r matches Err(AdtClientError::Protocol(e)) && e@ == m,
        },
{
    let mut reader = xml_reader(payload);
    let mut objects: Vec<AdtObjectSummary> = Vec::new();
    loop
        invariant
            xml_pending(reader).len() > 0,
            is_terminal(xml_pending(reader).last()),
            forall|i: int|
                0 <= i < xml_pending(reader).len() - 1 ==> !is_terminal(
                    #[trigger] xml_pending(reader)[i],
                ),
            spec_search_xml(payload@) == prepend_found(
                objects_view(objects@),
                spec_search_from_events(xml_pending(reader)),
            ),
        decreases xml_pending(reader).len(),
    {
        let ghost pending = xml_pending(reader);
        let event = xml_next_event(&mut reader);
        assert(pending.drop_first().len() > 0 ==> pending.drop_first().last() == pending.last());
        assert(spec_search_from_events(pending) == match pending[0] {
            XmlEvent::Eof => Ok(Seq::empty()),
            XmlEvent::Error(m) => Err(xml_error_prefix() + m@),
            XmlEvent::Other => spec_search_from_events(pending.drop_first()),
            XmlEvent::Element { local_name, attributes } => if local_name@
                == "objectReference".spec_bytes() {
                match spec_object_reference(attributes@) {
                    Err(m) => Err(m),
                    Ok(Some(o)) => prepend_found(seq![o], spec_search_from_events(pending.drop_first())),
                    Ok(None) => spec_search_from_events(pending.drop_first()),
                }
            } else {
                spec_search_from_events(pending.drop_first())
            },
        });
        match event {
            XmlEvent::Eof => {
                assert(objects_view(objects@) + Seq::<SummaryView>::empty() =~= objects_view(objects@));
                return Ok(AdtSearchResponse { objects });
            },
            XmlEvent::Error(m) => {
                return Err(
                    AdtClientError::Protocol(
                        concat("failed to parse ADT XML search response: ", m.as_str()),
                    ),
                );
            },
            XmlEvent::Other => {},
            XmlEvent::Element { local_name, attributes } => {
                if bytes_eq(local_name.as_slice(), "objectReference".as_bytes()) {
                    match parse_xml_object_reference(&attributes) {
                        Err(e) => {
                            return Err(e);
                        },
                        Ok(Some(o)) => {
                            let ghost before = objects@;
                            let ghost found = summary_view(o);
                            objects.push(o);
                            assert(objects_view(objects@) =~= objects_view(before) + seq![found]);
                            proof {
                                lemma_prepend_assoc(
                                    objects_view(before),
                                    seq![found],
                                    spec_search_from_events(xml_pending(reader)),
                                );
                            }
                        },
                        Ok(None) => {},
                    }
                }
            },
        }
    }
}

/// The report on a payload that is neither a JSON nor an XML search
/// response, from the JSON decoder's message and the XML reader's report.
pub open spec fn neither_json_nor_xml(json_error: Seq<char>, xml_error: Seq<char>) -> Seq<char> {
    "search payload is neither JSON nor ADT XML (json error: json serialization/deserialization failed: "@
        + json_error + "; xml error: protocol error: "@ + xml_error + ")"@
}

/// A search response payload: the JSON reading of it when that succeeded
/// (`json_result`, the decoder's message on failure), else its ADT XML
/// reading; when neither succeeds, a report naming both failures.
pub fn parse_search_response_payload(
    json_result: Result<AdtSearchResponse, String>,
    payload: &[u8],
) -> (r: Result<AdtSearchResponse, AdtClientError>)
    ensures
        match json_result {
            Ok(parsed) => r matches Ok(x) && x == parsed,
            Err(json_error) => match spec_search_xml(payload@) {
                Ok(v) => r matches Ok(resp) && objects_view(resp.objects@) == v,
                Err(m) => r matches Err(AdtClientError::Protocol(e)) && e@ == neither_json_nor_xml(
                    json_error@,
                    m,
                ),
            },
        },
{
    let json_error = match json_result {
        Ok(parsed) => {
            return Ok(parsed);
        },
        Err(e) => e,
    };
    match parse_search_xml_response(payload) {
        Ok(parsed) => Ok(parsed),
        Err(AdtClientError::Protocol(xml_error)) => {
            let mut message = concat(
                "search payload is neither JSON nor ADT XML (json error: json serialization/deserialization failed: ",
                json_error.as_str(),
            );
            crate::text::append(&mut message, "; xml error: protocol error: ");
            crate::text::append(&mut message, xml_error.as_str());
            crate::text::append(&mut message, ")");
            Err(AdtClientError::Protocol(message))
        },
        Err(other) => Err(other),
    }
}

/// Reading goes on past every object it finds: a run of events that holds
/// no end of input and reads without failure contributes its objects, in
/// order, ahead of all the objects that the events after it give.
pub proof fn law_search_reads_runs_in_order(a: Seq<XmlEvent>, b: Seq<XmlEvent>)
    requires
        forall|i: int| 0 <= i < a.len() ==> !(#[trigger] a[i] is Eof),
        spec_search_from_events(a) is Ok,
    ensures
        spec_search_from_events(a + b) == prepend_found(
            spec_search_from_events(a)->Ok_0,
            spec_search_from_events(b),
        ),
    decreases a.len(),
{
    if a.len() == 0 {
        assert(a + b =~= b);
        if let Ok(r) = spec_search_from_events(b) {
            assert(Seq::<SummaryView>::empty() + r =~= r);
        }
    } else {
        let rest = a.drop_first();
        assert((a + b)[0] == a[0]);
        assert((a + b).drop_first() =~= rest + b);
        assert forall|i: int| 0 <= i < rest.len() implies !(#[trigger] rest[i] is Eof) by {
            assert(rest[i] == a[i + 1]);
        }
        assert(!(a[0] is Eof));
        match a[0] {
            XmlEvent::Element { local_name, attributes } => {
                if local_name@ == "objectReference".spec_bytes() {
                    match spec_object_reference(attributes@) {
                        Ok(Some(o)) => {
                            law_search_reads_runs_in_order(rest, b);
                            lemma_prepend_assoc(
                                seq![o],
                                spec_search_from_events(rest)->Ok_0,
                                spec_search_from_events(b),
                            );
                        },
                        Ok(None) => {
                            law_search_reads_runs_in_order(rest, b);
                        },
                        Err(_) => {},
                    }
                } else {
                    law_search_reads_runs_in_order(rest, b);
                }
            },
            XmlEvent::Other => {
                law_search_reads_runs_in_order(rest, b);
            },
            _ => {},
        }
    }
}

/// Each `objectReference` element that carries a URI and a name gives
/// exactly one object, ahead of what the events after it give.
pub proof fn law_each_reference_gives_one_object(e: XmlEvent, rest: Seq<XmlEvent>)
    requires
        e matches XmlEvent::Element { local_name, attributes } && local_name@
            == "objectReference".spec_bytes() && spec_object_reference(attributes@) is Ok
            && spec_object_reference(attributes@)->Ok_0 is Some,
    ensures
        spec_search_from_events(seq![e]) == Ok::<Seq<SummaryView>, Seq<char>>(
            seq![spec_object_reference(e->attributes@)->Ok_0->Some_0],
        ),
        spec_search_from_events(seq![e] + rest) == prepend_found(
            seq![spec_object_reference(e->attributes@)->Ok_0->Some_0],
            spec_search_from_events(rest),
        ),
{
    let one = seq![e];
    assert(one.drop_first() =~= Seq::<XmlEvent>::empty());
    assert(spec_search_from_events(one.drop_first()) == Ok::<Seq<SummaryView>, Seq<char>>(Seq::empty()));
    assert(spec_search_from_events(one) == prepend_found(
        seq![spec_object_reference(e->attributes@)->Ok_0->Some_0],
        spec_search_from_events(one.drop_first()),
    ));
    assert((one + rest)[0] == e);
    assert((one + rest).drop_first() =~= rest);
    assert(seq![spec_object_reference(e->attributes@)->Ok_0->Some_0] + Seq::<SummaryView>::empty()
        =~= seq![spec_object_reference(e->attributes@)->Ok_0->Some_0]);
}

proof fn lemma_field_value_not_blank(attrs: Seq<Result<XmlAttribute, String>>, slot: int)
    ensures
        field_value(attrs, slot) matches Some(v) ==> trim_seq(v).len() > 0,
    decreases attrs.len(),
{
    if attrs.len() > 0 {
        lemma_field_value_not_blank(attrs.drop_last(), slot);
    }
}

/// Every object that a search reply lists has a URI and a name that are
/// not blank.
pub proof fn law_found_objects_have_uri_and_name(events: Seq<XmlEvent>)
    ensures
        spec_search_from_events(events) matches Ok(found) ==> forall|i: int|
            0 <= i < found.len() ==> trim_seq((#[trigger] found[i]).0).len() > 0 && trim_seq(found[i].1).len()
                > 0,
    decreases events.len(),
{
    if events.len() > 0 {
        let rest = events.drop_first();
        law_found_objects_have_uri_and_name(rest);
        if let XmlEvent::Element { local_name, attributes } = events[0] {
            if local_name@ == "objectReference".spec_bytes() {
                if let Ok(Some(o)) = spec_object_reference(attributes@) {
                    lemma_field_value_not_blank(attributes@, 0);
                    lemma_field_value_not_blank(attributes@, 1);
                    if let Ok(found) = spec_search_from_events(events) {
                        let tail = spec_search_from_events(rest)->Ok_0;
                        assert(found == seq![o] + tail);
                        assert forall|i: int| 0 <= i < found.len() implies trim_seq((#[trigger] found[i]).0).len()
                            > 0 && trim_seq(found[i].1).len() > 0 by {
                            if i > 0 {
                                assert(found[i] == tail[i - 1]);
                            }
                        }
                    }
                }
            }
        }
    }
}

} // verus!
