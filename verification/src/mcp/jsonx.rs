//! Values in tool arguments and in the JSON payloads of the runtime:
//! lookups by key anywhere in a document, and the readings of flags,
//! strings and string lists.
use vstd::prelude::*;

use crate::json::{child_count, lemma_child_smaller, spec_get, JsonValue};
use crate::text::{eq_ignore_case, lower_seq, owned, str_eq, to_lower, trim, trim_seq};

verus! {

/// The first value under a member named `key` (in any letter case) in a
/// depth-first walk of `v`: each member of an object in order, its own
/// name tried before its value is searched; each item of an array in
/// order.
pub open spec fn spec_find_json_key(v: JsonValue, key: Seq<char>) -> Option<JsonValue>
    decreases v, child_count(v) + 1,
{
    find_from_child(v, key, 0)
}

/// The search of `spec_find_json_key` from the `i`-th member or item on.
pub open spec fn find_from_child(v: JsonValue, key: Seq<char>, i: int) -> Option<JsonValue>
    decreases v, child_count(v) - i,
{
    if i < 0 || i >= child_count(v) {
        None
    } else {
        proof {
            lemma_child_smaller(v, i);
        }
        match v {
            JsonValue::Object(m) => if lower_seq(m@[i].0@) == lower_seq(key) {
                Some(m@[i].1)
            } else {
                match spec_find_json_key(m@[i].1, key) {
                    Some(found) => Some(found),
                    None => find_from_child(v, key, i + 1),
                }
            },
            JsonValue::Array(a) => match spec_find_json_key(a@[i], key) {
                Some(found) => Some(found),
                None => find_from_child(v, key, i + 1),
            },
            _ => None,
        }
    }
}

/// The first value under a member named `key`, anywhere in `v`.
pub fn find_json_key<'a>(value: &'a JsonValue, key: &str) -> (r: Option<&'a JsonValue>)
    ensures
        match r {
            Some(found) => spec_find_json_key(*value, key@) == Some(*found),
            None => spec_find_json_key(*value, key@) is None,
        },
    decreases *value, child_count(*value) + 1,
{
    let n: usize = match value {
        JsonValue::Object(m) => m.len(),
        JsonValue::Array(a) => a.len(),
        _ => 0,
    };
    let mut i: usize = 0;
    while i < n
        invariant
            i <= n,
            n == child_count(*value),
            spec_find_json_key(*value, key@) == find_from_child(*value, key@, i as int),
        decreases n - i,
    {
        proof {
            lemma_child_smaller(*value, i as int);
        }
        match value {
            JsonValue::Object(m) => {
                if eq_ignore_case(m[i].0.as_str(), key) {
                    return Some(&m[i].1);
                }
                match find_json_key(&m[i].1, key) {
                    Some(found) => {
                        return Some(found);
                    },
                    None => {},
                }
            },
            JsonValue::Array(a) => {
                match find_json_key(&a[i], key) {
                    Some(found) => {
                        return Some(found);
                    },
                    None => {},
                }
            },
            _ => {},
        }
        i += 1;
    }
    None
}

/// A flag as tool arguments write it: a JSON boolean, or a string that
/// reads (trimmed, in any letter case) `true`, `x`, `1`, `yes` or `false`,
/// `0`, `no`, or nothing. `None` for anything else.
pub open spec fn spec_parse_bool_value(value: JsonValue) -> Option<bool> {
    match value {
        JsonValue::Bool(b) => Some(b),
        JsonValue::Str(t) => {
            let l = lower_seq(trim_seq(t@));
            if l == "true"@ || l == "x"@ || l == "1"@ || l == "yes"@ {
                Some(true)
            } else if l == "false"@ || l == "0"@ || l == "no"@ || l.len() == 0 {
                Some(false)
            } else {
                None
            }
        },
        _ => None,
    }
}

/// A flag as tool arguments write it.
pub fn parse_bool_value(value: &JsonValue) -> (r: Option<bool>)
    ensures
        r == spec_parse_bool_value(*value),
{
    match value {
        JsonValue::Bool(b) => Some(*b),
        JsonValue::Str(t) => {
            let l = to_lower(trim(t.as_str()).as_str());
            let l = l.as_str();
            if str_eq(l, "true") || str_eq(l, "x") || str_eq(l, "1") || str_eq(l, "yes") {
                Some(true)
            } else if str_eq(l, "false") || str_eq(l, "0") || str_eq(l, "no") || l.is_empty() {
                Some(false)
            } else {
                None
            }
        },
        _ => None,
    }
}

/// The texts of a list of keys.
pub open spec fn keys_view(keys: Seq<&str>) -> Seq<Seq<char>> {
    keys.map_values(|k: &str| k@)
}

/// The trimmed text under the first of `keys` that `fields` holds as a
/// non-blank string (`fields` an object, looked up by exact key).
pub open spec fn spec_extract_non_empty_string(fields: JsonValue, keys: Seq<Seq<char>>) -> Option<
    Seq<char>,
>
    decreases keys.len(),
{
    if keys.len() == 0 {
        None
    } else {
        match spec_get(fields, keys[0]) {
            Some(JsonValue::Str(t)) if trim_seq(t@).len() > 0 => Some(trim_seq(t@)),
            _ => spec_extract_non_empty_string(fields, keys.drop_first()),
        }
    }
}

/// The trimmed text under the first key that holds a non-blank string.
pub fn extract_non_empty_string(fields: &JsonValue, keys: &[&str]) -> (r: Option<String>)
    ensures
        crate::xml::opt_text(r) == spec_extract_non_empty_string(*fields, keys_view(keys@)),
{
    let mut i: usize = 0;
    assert(keys_view(keys@).skip(0) =~= keys_view(keys@));
    while i < keys.len()
        invariant
            i <= keys@.len(),
            spec_extract_non_empty_string(*fields, keys_view(keys@))
                == spec_extract_non_empty_string(*fields, keys_view(keys@).skip(i as int)),
        decreases keys@.len() - i,
    {
        assert(keys_view(keys@).skip(i as int).drop_first() =~= keys_view(keys@).skip(i + 1));
        match fields.get(keys[i]) {
            Some(JsonValue::Str(t)) => {
                let trimmed = trim(t.as_str());
                if !trimmed.as_str().is_empty() {
                    return Some(trimmed);
                }
            },
            _ => {},
        }
        i += 1;
    }
    None
}

/// What `extract_json_string` reads from a value found under a key: a
/// non-blank string trimmed, a number as written, a boolean as `true` or
/// `false`; `None` (try the next key) for anything else.
pub open spec fn scalar_text(v: JsonValue) -> Option<Seq<char>> {
    match v {
        JsonValue::Str(t) => if trim_seq(t@).len() > 0 {
            Some(trim_seq(t@))
        } else {
            None
        },
        JsonValue::Number(n) => Some(n@),
        JsonValue::Bool(b) => Some(
            if b {
                "true"@
            } else {
                "false"@
            },
        ),
        _ => None,
    }
}

/// The text of the first of `keys`, searched anywhere in `payload`, whose
/// value is a non-blank string, a number or a boolean.
pub open spec fn spec_extract_json_string(payload: JsonValue, keys: Seq<Seq<char>>) -> Option<
    Seq<char>,
>
    decreases keys.len(),
{
    if keys.len() == 0 {
        None
    } else {
        match spec_find_json_key(payload, keys[0]) {
            Some(v) if scalar_text(v) is Some => scalar_text(v),
            _ => spec_extract_json_string(payload, keys.drop_first()),
        }
    }
}

/// The text of a scalar value, as `scalar_text` reads it.
fn scalar_string(v: &JsonValue) -> (r: Option<String>)
    ensures
        crate::xml::opt_text(r) == scalar_text(*v),
{
    match v {
        JsonValue::Str(t) => {
            let trimmed = trim(t.as_str());
            if trimmed.as_str().is_empty() {
                None
            } else {
                Some(trimmed)
            }
        },
        JsonValue::Number(n) => Some(n.clone()),
        JsonValue::Bool(b) => Some(
            if *b {
                owned("true")
            } else {
                owned("false")
            },
        ),
        _ => None,
    }
}

/// The text of the first of `keys`, anywhere in `payload`, that holds a
/// non-blank string, a number or a boolean.
pub fn extract_json_string(payload: &JsonValue, keys: &[&str]) -> (r: Option<String>)
    ensures
        crate::xml::opt_text(r) == spec_extract_json_string(*payload, keys_view(keys@)),
{
    let mut i: usize = 0;
    assert(keys_view(keys@).skip(0) =~= keys_view(keys@));
    while i < keys.len()
        invariant
            i <= keys@.len(),
            spec_extract_json_string(*payload, keys_view(keys@)) == spec_extract_json_string(
                *payload,
                keys_view(keys@).skip(i as int),
            ),
        decreases keys@.len() - i,
    {
        assert(keys_view(keys@).skip(i as int).drop_first() =~= keys_view(keys@).skip(i + 1));
        match find_json_key(payload, keys[i]) {
            Some(v) => {
                let text = scalar_string(v);
                if text.is_some() {
                    return text;
                }
            },
            None => {},
        }
        i += 1;
    }
    None
}

/// The non-blank strings among `items`, trimmed, in order.
pub open spec fn string_items(items: Seq<JsonValue>) -> Seq<Seq<char>>
    decreases items.len(),
{
    if items.len() == 0 {
        Seq::empty()
    } else {
        let rest = string_items(items.drop_last());
        match items.last() {
            JsonValue::Str(t) if trim_seq(t@).len() > 0 => rest.push(trim_seq(t@)),
            _ => rest,
        }
    }
}

/// The list of strings under the first of `keys`, searched anywhere in
/// `payload`, that holds an array or a non-blank string: the non-blank
/// strings of an array; for a string, the array it encodes when it starts
/// with `[` and `decoded`, its JSON decoding, is an array, else its
/// comma-separated pieces, trimmed, blank ones left out.
pub open spec fn spec_extract_json_string_array(
    payload: JsonValue,
    keys: Seq<Seq<char>>,
    decoded: Result<JsonValue, Seq<char>>,
) -> Seq<Seq<char>>
    decreases keys.len(),
{
    if keys.len() == 0 {
        Seq::empty()
    } else {
        match spec_find_json_key(payload, keys[0]) {
            Some(JsonValue::Array(items)) => string_items(items@),
            Some(JsonValue::Str(t)) if trim_seq(t@).len() > 0 => {
                let trimmed = trim_seq(t@);
                match decoded {
                    Ok(JsonValue::Array(items)) if crate::text::has_prefix(trimmed, "["@) => string_items(
                        items@,
                    ),
                    _ => crate::mcp::abapfile::clean_pieces(crate::text::split_seq(trimmed, ',')),
                }
            },
            _ => spec_extract_json_string_array(payload, keys.drop_first(), decoded),
        }
    }
}

/// The text that `extract_json_string_array` decodes as JSON: the first
/// string among `keys` that is not blank, when no array comes before it
/// and it starts with `[` once trimmed.
pub open spec fn spec_json_array_text(payload: JsonValue, keys: Seq<Seq<char>>) -> Option<Seq<char>>
    decreases keys.len(),
{
    if keys.len() == 0 {
        None
    } else {
        match spec_find_json_key(payload, keys[0]) {
            Some(JsonValue::Array(_)) => None,
            Some(JsonValue::Str(t)) if trim_seq(t@).len() > 0 => if crate::text::has_prefix(
                trim_seq(t@),
                "["@,
            ) {
                Some(trim_seq(t@))
            } else {
                None
            },
            _ => spec_json_array_text(payload, keys.drop_first()),
        }
    }
}

/// The error text of a decoding result.
pub open spec fn decoded_view(d: Result<JsonValue, String>) -> Result<JsonValue, Seq<char>> {
    match d {
        Ok(v) => Ok(v),
        Err(e) => Err(e@),
    }
}

/// The non-blank strings of an array, trimmed.
fn strings_of(items: &Vec<JsonValue>) -> (r: Vec<String>)
    ensures
        r@.map_values(|x: String| x@) == string_items(items@),
{
    let mut out: Vec<String> = Vec::new();
    let mut i: usize = 0;
    while i < items.len()
        invariant
            i <= items@.len(),
            out@.map_values(|x: String| x@) == string_items(items@.take(i as int)),
        decreases items@.len() - i,
    {
        assert(items@.take(i + 1).drop_last() =~= items@.take(i as int));
        match &items[i] {
            JsonValue::Str(t) => {
                let trimmed = trim(t.as_str());
                if !trimmed.as_str().is_empty() {
                    let ghost before = out@;
                    let ghost tv = trimmed@;
                    out.push(trimmed);
                    assert(out@.map_values(|x: String| x@) =~= before.map_values(|x: String| x@).push(
                        tv,
                    ));
                }
            },
            _ => {},
        }
        i += 1;
    }
    assert(items@.take(items@.len() as int) =~= items@);
    out
}

/// The text that `extract_json_string_array` decodes as JSON, if any.
pub fn json_array_text(payload: &JsonValue, keys: &[&str]) -> (r: Option<String>)
    ensures
        crate::xml::opt_text(r) == spec_json_array_text(*payload, keys_view(keys@)),
{
    let mut i: usize = 0;
    assert(keys_view(keys@).skip(0) =~= keys_view(keys@));
    while i < keys.len()
        invariant
            i <= keys@.len(),
            spec_json_array_text(*payload, keys_view(keys@)) == spec_json_array_text(
                *payload,
                keys_view(keys@).skip(i as int),
            ),
        decreases keys@.len() - i,
    {
        assert(keys_view(keys@).skip(i as int).drop_first() =~= keys_view(keys@).skip(i + 1));
        match find_json_key(payload, keys[i]) {
            Some(JsonValue::Array(_)) => {
                return None;
            },
            Some(JsonValue::Str(t)) => {
                let trimmed = trim(t.as_str());
                if !trimmed.as_str().is_empty() {
                    if crate::text::starts_with(trimmed.as_str(), "[") {
                        return Some(trimmed);
                    }
                    return None;
                }
            },
            _ => {},
        }
        i += 1;
    }
    None
}

/// The list of strings under the first of `keys` that holds an array or a
/// non-blank string; `decoded` is the JSON decoding of the text that
/// `json_array_text` names, when it names one.
pub fn extract_json_string_array(
    payload: &JsonValue,
    keys: &[&str],
    decoded: Result<JsonValue, String>,
) -> (r: Vec<String>)
    ensures
        r@.map_values(|x: String| x@) == spec_extract_json_string_array(
            *payload,
            keys_view(keys@),
            decoded_view(decoded),
        ),
{
    let mut i: usize = 0;
    assert(keys_view(keys@).skip(0) =~= keys_view(keys@));
    while i < keys.len()
        invariant
            i <= keys@.len(),
            spec_extract_json_string_array(*payload, keys_view(keys@), decoded_view(decoded))
                == spec_extract_json_string_array(
                *payload,
                keys_view(keys@).skip(i as int),
                decoded_view(decoded),
            ),
        decreases keys@.len() - i,
    {
        assert(keys_view(keys@).skip(i as int).drop_first() =~= keys_view(keys@).skip(i + 1));
        match find_json_key(payload, keys[i]) {
            Some(JsonValue::Array(items)) => {
                return strings_of(items);
            },
            Some(JsonValue::Str(t)) => {
                let trimmed = trim(t.as_str());
                if !trimmed.as_str().is_empty() {
                    if crate::text::starts_with(trimmed.as_str(), "[") {
                        match &decoded {
                            Ok(JsonValue::Array(items)) => {
                                return strings_of(items);
                            },
                            _ => {},
                        }
                    }
                    return crate::mcp::abapfile::clean_split(trimmed.as_str(), ',');
                }
            },
            _ => {},
        }
        i += 1;
    }
    Vec::new()
}

/// A flag of a field object: the value under `first`, else under
/// `second`, read as a flag; false when missing or unreadable.
pub open spec fn field_flag(item: JsonValue, first: Seq<char>, second: Seq<char>) -> bool {
    let found = match spec_get(item, first) {
        Some(v) => Some(v),
        None => spec_get(item, second),
    };
    match found {
        Some(v) => match spec_parse_bool_value(v) {
            Some(b) => b,
            None => false,
        },
        None => false,
    }
}

/// A field of a table as one item of a field list gives it: an object
/// must name the field (`name`, `fieldName`, `field_name`, `field`) and
/// its type (`type`, `dataType`, `data_type`, `abapType`), and may flag it
/// as key (`key`, `isKey`) or not null (`not_null`, `notNull`,
/// `required`); a string is a `name:type[:flag…]` spec; anything else,
/// or a spec that cannot be read, gives no field.
pub open spec fn spec_item_field(item: JsonValue) -> Result<Option<crate::mcp::abapfile::FieldView>, Seq<char>> {
    match item {
        JsonValue::Object(_) => match spec_extract_non_empty_string(
            item,
            seq!["name"@, "fieldName"@, "field_name"@, "field"@],
        ) {
            None => Err("table field is missing name"@),
            Some(name) => match spec_extract_non_empty_string(
                item,
                seq!["type"@, "dataType"@, "data_type"@, "abapType"@],
            ) {
                None => Err("field `"@ + name + "` is missing type"@),
                Some(data_type) => Ok(
                    Some(
                        (
                            crate::text::upper_seq(name),
                            data_type,
                            field_flag(item, "key"@, "isKey"@),
                            field_flag(item, "not_null"@, "notNull"@) || (spec_get(
                                item,
                                "not_null"@,
                            ) is None && spec_get(item, "notNull"@) is None && field_flag(
                                item,
                                "required"@,
                                "required"@,
                            )),
                        ),
                    ),
                ),
            },
        },
        JsonValue::Str(spec) => Ok(crate::mcp::abapfile::spec_parse_table_field_spec(spec@)),
        _ => Ok(None),
    }
}

/// The fields that a list of items gives, in order; the first item that
/// is refused refuses the list.
pub open spec fn spec_item_fields(items: Seq<JsonValue>) -> Result<Seq<crate::mcp::abapfile::FieldView>, Seq<char>>
    decreases items.len(),
{
    if items.len() == 0 {
        Ok(Seq::empty())
    } else {
        match spec_item_field(items[0]) {
            Err(e) => Err(e),
            Ok(Some(f)) => match spec_item_fields(items.drop_first()) {
                Ok(rest) => Ok(seq![f] + rest),
                Err(e) => Err(e),
            },
            Ok(None) => spec_item_fields(items.drop_first()),
        }
    }
}

/// The fields of the `name:type[:flag…]` specs among `pieces`, in order.
pub open spec fn spec_fields_of_specs(pieces: Seq<Seq<char>>) -> Seq<crate::mcp::abapfile::FieldView>
    decreases pieces.len(),
{
    if pieces.len() == 0 {
        Seq::empty()
    } else {
        let rest = spec_fields_of_specs(pieces.drop_last());
        match crate::mcp::abapfile::spec_parse_table_field_spec(pieces.last()) {
            Some(f) => rest.push(f),
            None => rest,
        }
    }
}

/// The text that `parse_table_fields` decodes as JSON: the trimmed field
/// list when it is a string that starts with `[`.
pub open spec fn spec_fields_json_text(fields: Option<JsonValue>) -> Option<Seq<char>> {
    match fields {
        Some(JsonValue::Str(t)) if crate::text::has_prefix(trim_seq(t@), "["@) => Some(trim_seq(t@)),
        _ => None,
    }
}

/// The fields of a new table from its tool argument: none when it is
/// missing; an array of field objects and specs; a JSON text of such an
/// array (whose decoding, `decoded`, the caller gives, a text that starts
/// with `[` decoding to an array or failing); or specs separated by `;`.
pub open spec fn spec_parse_table_fields(
    fields: Option<JsonValue>,
    decoded: Result<JsonValue, Seq<char>>,
) -> Result<Seq<crate::mcp::abapfile::FieldView>, Seq<char>> {
    match fields {
        None => Ok(Seq::empty()),
        Some(JsonValue::Array(items)) => spec_item_fields(items@),
        Some(JsonValue::Str(t)) => {
            let trimmed = trim_seq(t@);
            if crate::text::has_prefix(trimmed, "["@) {
                match decoded {
                    Err(e) => Err("invalid fields JSON string: "@ + e),
                    Ok(JsonValue::Array(items)) => spec_item_fields(items@),
                    Ok(_) => Err("fields must be array or string"@),
                }
            } else {
                Ok(
                    spec_fields_of_specs(
                        crate::mcp::abapfile::clean_pieces(crate::text::split_seq(trimmed, ';')),
                    ),
                )
            }
        },
        Some(_) => Err("fields must be array or string"@),
    }
}

/// The text to decode as JSON before `parse_table_fields`, if any.
pub fn fields_json_text(fields: &Option<JsonValue>) -> (r: Option<String>)
    ensures
        crate::xml::opt_text(r) == spec_fields_json_text(*fields),
{
    match fields {
        Some(JsonValue::Str(t)) => {
            let trimmed = trim(t.as_str());
            if crate::text::starts_with(trimmed.as_str(), "[") {
                Some(trimmed)
            } else {
                None
            }
        },
        _ => None,
    }
}

/// A flag of a field object, the value under `first` or else `second`.
fn flag_of(item: &JsonValue, first: &str, second: &str) -> (r: bool)
    ensures
        r == field_flag(*item, first@, second@),
{
    let found = match item.get(first) {
        Some(v) => Some(v),
        None => item.get(second),
    };
    match found {
        Some(v) => match parse_bool_value(v) {
            Some(b) => b,
            None => false,
        },
        None => false,
    }
}

/// The field that one item of a field list gives.
fn item_field(item: &JsonValue, tool_name: &str) -> (r: Result<Option<crate::mcp::abapfile::TableFieldDefinition>, crate::errors::NeuroMcpError>)
    ensures
        match spec_item_field(*item) {
            Ok(Some(v)) => r matches Ok(Some(f)) && crate::mcp::abapfile::field_view(f) == v,
            Ok(None) => r matches Ok(None),
            Err(m) => r matches Err(crate::errors::NeuroMcpError::InvalidArguments { tool, message })
                && tool@ == tool_name@ && message@ == m,
        },
{
    match item {
        JsonValue::Object(_) => {
            let name_keys = ["name", "fieldName", "field_name", "field"];
            let type_keys = ["type", "dataType", "data_type", "abapType"];
            assert(keys_view(name_keys@) =~= seq!["name"@, "fieldName"@, "field_name"@, "field"@]);
            assert(keys_view(type_keys@) =~= seq!["type"@, "dataType"@, "data_type"@, "abapType"@]);
            let name = match extract_non_empty_string(item, &name_keys) {
                Some(n) => n,
                None => {
                    return Err(
                        crate::mcp::create::invalid_arguments(tool_name, "table field is missing name"),
                    );
                },
            };
            let data_type = match extract_non_empty_string(item, &type_keys) {
                Some(t) => t,
                None => {
                    let mut message = crate::text::concat("field `", name.as_str());
                    crate::text::append(&mut message, "` is missing type");
                    return Err(crate::mcp::create::invalid_arguments(tool_name, message.as_str()));
                },
            };
            let is_key = flag_of(item, "key", "isKey");
            let not_null = if item.get("not_null").is_some() || item.get("notNull").is_some() {
                flag_of(item, "not_null", "notNull")
            } else {
                flag_of(item, "required", "required")
            };
            Ok(
                Some(
                    crate::mcp::abapfile::TableFieldDefinition {
                        name: crate::text::to_upper(name.as_str()),
                        data_type,
                        is_key,
                        not_null,
                    },
                ),
            )
        },
        JsonValue::Str(spec) => Ok(crate::mcp::abapfile::parse_table_field_spec(spec.as_str())),
        _ => Ok(None),
    }
}

/// The fields that a list of items gives.
fn item_fields(items: &Vec<JsonValue>, tool_name: &str) -> (r: Result<Vec<crate::mcp::abapfile::TableFieldDefinition>, crate::errors::NeuroMcpError>)
    ensures
        match spec_item_fields(items@) {
            Ok(v) => r matches Ok(fs) && crate::mcp::abapfile::fields_view(fs@) == v,
            Err(m) => r matches Err(crate::errors::NeuroMcpError::InvalidArguments { tool, message })
                && tool@ == tool_name@ && message@ == m,
        },
{
    let mut out: Vec<crate::mcp::abapfile::TableFieldDefinition> = Vec::new();
    let mut i: usize = 0;
    assert(items@.skip(0) =~= items@);
    while i < items.len()
        invariant
            i <= items@.len(),
            spec_item_fields(items@) == match spec_item_fields(items@.skip(i as int)) {
                Ok(rest) => Ok(crate::mcp::abapfile::fields_view(out@) + rest),
                Err(e) => Err(e),
            },
        decreases items@.len() - i,
    {
        assert(items@.skip(i as int).drop_first() =~= items@.skip(i + 1));
        assert(items@.skip(i as int)[0] == items@[i as int]);
        match item_field(&items[i], tool_name) {
            Err(e) => {
                return Err(e);
            },
            Ok(Some(f)) => {
                let ghost before = out@;
                let ghost fv = crate::mcp::abapfile::field_view(f);
                out.push(f);
                assert(crate::mcp::abapfile::fields_view(out@) =~= crate::mcp::abapfile::fields_view(
                    before,
                ).push(fv));
                proof {
                    match spec_item_fields(items@.skip(i + 1)) {
                        Ok(rest) => {
                            assert(crate::mcp::abapfile::fields_view(before) + (seq![fv] + rest)
                                =~= crate::mcp::abapfile::fields_view(out@) + rest);
                        },
                        Err(_) => {},
                    }
                }
            },
            Ok(None) => {},
        }
        i += 1;
    }
    assert(crate::mcp::abapfile::fields_view(out@) + Seq::empty() =~= crate::mcp::abapfile::fields_view(out@));
    Ok(out)
}

/// The fields of the specs among `pieces`.
fn fields_of_specs(pieces: &Vec<String>) -> (r: Vec<crate::mcp::abapfile::TableFieldDefinition>)
    ensures
        crate::mcp::abapfile::fields_view(r@) == spec_fields_of_specs(pieces@.map_values(|x: String| x@)),
{
    let ghost views = pieces@.map_values(|x: String| x@);
    let mut out: Vec<crate::mcp::abapfile::TableFieldDefinition> = Vec::new();
    let mut i: usize = 0;
    while i < pieces.len()
        invariant
            i <= pieces@.len(),
            views == pieces@.map_values(|x: String| x@),
            crate::mcp::abapfile::fields_view(out@) == spec_fields_of_specs(views.take(i as int)),
        decreases pieces@.len() - i,
    {
        assert(views.take(i + 1).drop_last() =~= views.take(i as int));
        match crate::mcp::abapfile::parse_table_field_spec(pieces[i].as_str()) {
            Some(f) => {
                let ghost before = out@;
                let ghost fv = crate::mcp::abapfile::field_view(f);
                out.push(f);
                assert(crate::mcp::abapfile::fields_view(out@) =~= crate::mcp::abapfile::fields_view(
                    before,
                ).push(fv));
            },
            None => {},
        }
        i += 1;
    }
    assert(views.take(pieces@.len() as int) =~= views);
    out
}

/// The fields of a new table from its tool argument; `decoded` is the
/// JSON decoding of the text that `fields_json_text` names, when it names
/// one (else it is not read).
pub fn parse_table_fields(
    fields: Option<JsonValue>,
    decoded: Result<JsonValue, String>,
    tool_name: &str,
) -> (r: Result<Vec<crate::mcp::abapfile::TableFieldDefinition>, crate::errors::NeuroMcpError>)
    ensures
        match spec_parse_table_fields(fields, decoded_view(decoded)) {
            Ok(v) => r matches Ok(fs) && crate::mcp::abapfile::fields_view(fs@) == v,
            Err(m) => r matches Err(crate::errors::NeuroMcpError::InvalidArguments { tool, message })
                && tool@ == tool_name@ && message@ == m,
        },
{
    match fields {
        None => Ok(Vec::new()),
        Some(JsonValue::Array(items)) => item_fields(&items, tool_name),
        Some(JsonValue::Str(t)) => {
            let trimmed = trim(t.as_str());
            if crate::text::starts_with(trimmed.as_str(), "[") {
                match decoded {
                    Err(e) => {
                        let message = crate::text::concat("invalid fields JSON string: ", e.as_str());
                        Err(crate::mcp::create::invalid_arguments(tool_name, message.as_str()))
                    },
                    Ok(JsonValue::Array(items)) => item_fields(&items, tool_name),
                    Ok(_) => Err(
                        crate::mcp::create::invalid_arguments(tool_name, "fields must be array or string"),
                    ),
                }
            } else {
                let pieces = crate::mcp::abapfile::clean_split(trimmed.as_str(), ';');
                Ok(fields_of_specs(&pieces))
            }
        },
        Some(_) => Err(
            crate::mcp::create::invalid_arguments(tool_name, "fields must be array or string"),
        ),
    }
}

} // verus!
