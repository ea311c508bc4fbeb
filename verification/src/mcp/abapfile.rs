//! ABAP source files on disk and table definitions: what a file name says
//! about the object it holds, and the DDL of a new table.
use vstd::prelude::*;

use crate::errors::NeuroMcpError;
use crate::mcp::create::invalid_arguments;
use crate::mcp::paths::{canon, plain_component, spec_default_export_filename};
use crate::text::{
    append, concat, eq_ignore_case, has_suffix, join_seq, lower_seq, owned, split, split_seq,
    str_eq, to_lower, to_upper, trim, trim_seq, upper_seq, is_ws, lemma_find_from, lemma_lower_char_ws,
    lemma_split_absent, lemma_trim_unchanged, lemma_upper_of_lower, occurs_at, find_seq, lower_char,
};
use crate::xml::opt_text;

verus! {

/// The last component of a path as `Path::file_name` gives it on the
/// platform the library is built for, `None` when there is none (a root,
/// or a path that ends in `..`).
pub uninterp spec fn path_file_name(path: Seq<char>) -> Option<Seq<char>>;

/// The last component of a path (`Path::file_name`, as text). Claimed: the
/// result depends on the text of `path` and on the platform the program is
/// built for (on Windows a backslash also separates and a letter with a
/// colon is a drive), which is fixed for a build; and a path that is one
/// plain component is its own file name (`Path::new("foo.txt").file_name()`
/// is `foo.txt` on every platform).
#[verifier::external_body]
fn file_name(path: &str) -> (r: Option<String>)
    ensures
        opt_text(r) == path_file_name(path@),
        plain_component(path@) ==> opt_text(r) == Some(path@),
{
    std::path::Path::new(path).file_name().and_then(|value| value.to_str()).map(str::to_owned)
}

/// What a file name says about the object a file holds: its long type,
/// its upper-cased name, the function group of a function module, and the
/// class section a class file holds.
#[derive(Clone, Debug, PartialEq, Eq)]
pub struct ParsedAbapFileInfo {
    pub object_type: String,
    pub object_name: String,
    pub parent_name: Option<String>,
    pub include_type: Option<String>,
}

/// A file description as text values: type, name, group, class section.
pub type FileInfoView = (Seq<char>, Seq<char>, Option<Seq<char>>, Option<Seq<char>>);

/// A file description as text values.
pub open spec fn file_info_view(i: ParsedAbapFileInfo) -> FileInfoView {
    (i.object_type@, i.object_name@, opt_text(i.parent_name), opt_text(i.include_type))
}

/// The pieces trimmed, the blank ones left out, in order.
pub open spec fn clean_pieces(pieces: Seq<Seq<char>>) -> Seq<Seq<char>>
    decreases pieces.len(),
{
    if pieces.len() == 0 {
        Seq::empty()
    } else {
        let rest = clean_pieces(pieces.drop_last());
        let last = trim_seq(pieces.last());
        if last.len() == 0 {
            rest
        } else {
            rest.push(last)
        }
    }
}

/// The long object type that a file suffix names, for the suffixes that
/// name a whole object by its dotted name.
pub open spec fn suffix_object_type(suffix: Seq<char>) -> Option<Seq<char>> {
    if suffix == "prog"@ || suffix == "program"@ {
        Some("PROG/P"@)
    } else if suffix == "incl"@ || suffix == "include"@ {
        Some("PROG/I"@)
    } else if suffix == "clas"@ || suffix == "class"@ {
        Some("CLAS/OC"@)
    } else if suffix == "intf"@ || suffix == "interface"@ {
        Some("INTF/OI"@)
    } else if suffix == "tabl"@ || suffix == "table"@ {
        Some("TABL/DT"@)
    } else if suffix == "ddls"@ || suffix == "ddl"@ {
        Some("DDLS/DF"@)
    } else if suffix == "srvd"@ {
        Some("SRVD/SRV"@)
    } else if suffix == "srvb"@ {
        Some("SRVB/SVB"@)
    } else if suffix == "fugr"@ {
        Some("FUGR/F"@)
    } else {
        None
    }
}

/// The suffixes of files that hold a section of a class.
pub open spec fn is_class_section_suffix(suffix: Seq<char>) -> bool {
    suffix == "locals_def"@ || suffix == "locals_imp"@ || suffix == "macros"@ || suffix
        == "testclasses"@
}

/// What the name of an ABAP file says: `<name>.<type>.abap`,
/// `<group>.<module>.fmod.abap` or `<class>.<section>.abap`, the dotted
/// pieces trimmed and blank ones ignored; the name is the upper-cased
/// pieces before the suffix, joined by dots. Otherwise the message that
/// refuses the file.
pub open spec fn spec_parse_abap_file_info(file_path: Seq<char>) -> Result<FileInfoView, Seq<char>> {
    match path_file_name(file_path) {
        None => Err("invalid file path `"@ + file_path + "`"@),
        Some(name) => if !has_suffix(name, ".abap"@) {
            Err("file extension must be .abap"@)
        } else {
            let without_suffix = name.take(name.len() - 5);
            let parts = clean_pieces(split_seq(without_suffix, '.'));
            if parts.len() < 2 {
                Err("file name must follow <name>.<type>.abap or <class>.<include>.abap"@)
            } else {
                let suffix = lower_seq(parts.last());
                let rest = parts.drop_last();
                let prefix_joined = upper_seq(join_seq(rest, "."@));
                match suffix_object_type(suffix) {
                    Some(t) => Ok((t, prefix_joined, None, None)),
                    None => if suffix == "fmod"@ || suffix == "func"@ {
                        if rest.len() < 2 {
                            Err("function module file should be <group>.<module>.fmod.abap"@)
                        } else {
                            Ok(
                                (
                                    "FUGR/FF"@,
                                    upper_seq(rest.last()),
                                    Some(upper_seq(rest[rest.len() - 2])),
                                    None,
                                ),
                            )
                        }
                    } else if is_class_section_suffix(suffix) {
                        Ok(("CLAS/OC"@, prefix_joined, None, Some(suffix)))
                    } else {
                        Err("unsupported ABAP file suffix `"@ + suffix + "`"@)
                    },
                }
            }
        },
    }
}

/// The pieces of `s` between occurrences of `c`, trimmed, blank ones left
/// out.
pub fn clean_split(s: &str, c: char) -> (r: Vec<String>)
    ensures
        r@.map_values(|x: String| x@) == clean_pieces(split_seq(s@, c)),
{
    let pieces = split(s, c);
    let ghost all = split_seq(s@, c);
    let mut out: Vec<String> = Vec::new();
    let mut i: usize = 0;
    while i < pieces.len()
        invariant
            i <= pieces@.len(),
            pieces@.len() == all.len(),
            forall|k: int| 0 <= k < pieces@.len() ==> #[trigger] pieces@[k]@ == all[k],
            out@.map_values(|x: String| x@) == clean_pieces(all.take(i as int)),
        decreases pieces@.len() - i,
    {
        assert(all.take(i + 1).drop_last() =~= all.take(i as int));
        let t = trim(pieces[i].as_str());
        if !t.as_str().is_empty() {
            let ghost before = out@;
            let ghost tv = t@;
            out.push(t);
            assert(out@.map_values(|x: String| x@) =~= before.map_values(|x: String| x@).push(tv));
        }
        i += 1;
    }
    assert(all.take(pieces@.len() as int) =~= all);
    out
}

/// The pieces joined with `sep`.
fn join_strings(parts: &Vec<String>, n: usize, sep: &str) -> (r: String)
    requires
        n <= parts@.len(),
    ensures
        r@ == join_seq(parts@.map_values(|x: String| x@).take(n as int), sep@),
{
    let ghost views = parts@.map_values(|x: String| x@);
    let mut out = String::new();
    let mut i: usize = 0;
    while i < n
        invariant
            i <= n <= parts@.len(),
            views == parts@.map_values(|x: String| x@),
            out@ == join_seq(views.take(i as int), sep@),
        decreases n - i,
    {
        assert(views.take(i + 1).drop_last() =~= views.take(i as int));
        if i > 0 {
            append(&mut out, sep);
        }
        append(&mut out, parts[i].as_str());
        proof {
            if i == 0 {
                assert(views.take(1) =~= seq![views[0]]);
                assert(out@ =~= views[0]);
            }
        }
        i += 1;
    }
    out
}

/// What the name of an ABAP file says about the object it holds.
pub fn parse_abap_file_info(file_path: &str, tool_name: &str) -> (r: Result<ParsedAbapFileInfo, NeuroMcpError>)
    ensures
        match spec_parse_abap_file_info(file_path@) {
            Ok(v) => r matches Ok(i) && file_info_view(i) == v,
            Err(m) => r matches Err(NeuroMcpError::InvalidArguments { tool, message }) && tool@
                == tool_name@ && message@ == m,
        },
        plain_component(file_path@) ==> path_file_name(file_path@) == Some(file_path@),
{
    let name = match file_name(file_path) {
        Some(n) => n,
        None => {
            let mut message = concat("invalid file path `", file_path);
            append(&mut message, "`");
            return Err(invalid_arguments(tool_name, message.as_str()));
        },
    };
    if !crate::text::ends_with(name.as_str(), ".abap") {
        return Err(invalid_arguments(tool_name, "file extension must be .abap"));
    }
    let chars = crate::text::to_chars(name.as_str());
    proof {
        reveal_strlit(".abap");
    }
    let without_suffix = crate::text::from_chars_range(chars.as_slice(), 0, chars.len() - 5);
    let parts = clean_split(without_suffix.as_str(), '.');
    let ghost views = parts@.map_values(|x: String| x@);
    if parts.len() < 2 {
        return Err(
            invalid_arguments(
                tool_name,
                "file name must follow <name>.<type>.abap or <class>.<include>.abap",
            ),
        );
    }
    let count = parts.len() - 1;
    let suffix = to_lower(parts[count].as_str());
    assert(views.drop_last() =~= views.take(count as int));
    let joined = join_strings(&parts, count, ".");
    let prefix_joined = to_upper(joined.as_str());
    let s = suffix.as_str();
    let object_type: &str = if str_eq(s, "prog") || str_eq(s, "program") {
        "PROG/P"
    } else if str_eq(s, "incl") || str_eq(s, "include") {
        "PROG/I"
    } else if str_eq(s, "clas") || str_eq(s, "class") {
        "CLAS/OC"
    } else if str_eq(s, "intf") || str_eq(s, "interface") {
        "INTF/OI"
    } else if str_eq(s, "tabl") || str_eq(s, "table") {
        "TABL/DT"
    } else if str_eq(s, "ddls") || str_eq(s, "ddl") {
        "DDLS/DF"
    } else if str_eq(s, "srvd") {
        "SRVD/SRV"
    } else if str_eq(s, "srvb") {
        "SRVB/SVB"
    } else if str_eq(s, "fugr") {
        "FUGR/F"
    } else if str_eq(s, "fmod") || str_eq(s, "func") {
        if count < 2 {
            return Err(
                invalid_arguments(
                    tool_name,
                    "function module file should be <group>.<module>.fmod.abap",
                ),
            );
        }
        let object_name = to_upper(parts[count - 1].as_str());
        let group = to_upper(parts[count - 2].as_str());
        return Ok(
            ParsedAbapFileInfo {
                object_type: owned("FUGR/FF"),
                object_name,
                parent_name: Some(group),
                include_type: None,
            },
        );
    } else if str_eq(s, "locals_def") || str_eq(s, "locals_imp") || str_eq(s, "macros") || str_eq(
        s,
        "testclasses",
    ) {
        return Ok(
            ParsedAbapFileInfo {
                object_type: owned("CLAS/OC"),
                object_name: prefix_joined,
                parent_name: None,
                include_type: Some(suffix),
            },
        );
    } else {
        let mut message = concat("unsupported ABAP file suffix `", s);
        append(&mut message, "`");
        return Err(invalid_arguments(tool_name, message.as_str()));
    };
    Ok(
        ParsedAbapFileInfo {
            object_type: owned(object_type),
            object_name: prefix_joined,
            parent_name: None,
            include_type: None,
        },
    )
}

/// One field of a table definition.
#[derive(Clone, Debug, PartialEq, Eq)]
pub struct TableFieldDefinition {
    pub name: String,
    pub data_type: String,
    pub is_key: bool,
    pub not_null: bool,
}

/// A field definition as plain values: name, type, key, not null.
pub type FieldView = (Seq<char>, Seq<char>, bool, bool);

/// A field definition as plain values.
pub open spec fn field_view(f: TableFieldDefinition) -> FieldView {
    (f.name@, f.data_type@, f.is_key, f.not_null)
}

/// Field definitions as plain values.
pub open spec fn fields_view(fields: Seq<TableFieldDefinition>) -> Seq<FieldView> {
    fields.map_values(|f: TableFieldDefinition| field_view(f))
}

/// Some flag among `flags` names `a` or `b`, in any letter case.
pub open spec fn has_flag(flags: Seq<Seq<char>>, a: Seq<char>, b: Seq<char>) -> bool {
    exists|i: int|
        0 <= i < flags.len() && (lower_seq(#[trigger] flags[i]) == lower_seq(a) || lower_seq(
            flags[i],
        ) == lower_seq(b))
}

/// A field written as `name:type[:flag…]`, pieces trimmed and blank ones
/// ignored: the upper-cased name, the type, and whether a flag makes it a
/// key (`key`, `pk`) or not null (`notnull`, `not_null`). `None` with
/// fewer than two pieces.
pub open spec fn spec_parse_table_field_spec(spec: Seq<char>) -> Option<FieldView> {
    let parts = clean_pieces(split_seq(spec, ':'));
    if parts.len() < 2 {
        None
    } else {
        let flags = parts.skip(2);
        Some(
            (
                upper_seq(parts[0]),
                parts[1],
                has_flag(flags, "key"@, "pk"@),
                has_flag(flags, "notnull"@, "not_null"@),
            ),
        )
    }
}

/// A field written as `name:type[:flag…]`.
pub fn parse_table_field_spec(spec: &str) -> (r: Option<TableFieldDefinition>)
    ensures
        match spec_parse_table_field_spec(spec@) {
            Some(v) => r matches Some(f) && field_view(f) == v,
            None => r is None,
        },
{
    let parts = clean_split(spec, ':');
    let ghost views = parts@.map_values(|x: String| x@);
    if parts.len() < 2 {
        return None;
    }
    let ghost flags = views.skip(2);
    let mut is_key = false;
    let mut not_null = false;
    let mut i: usize = 2;
    while i < parts.len()
        invariant
            2 <= i <= parts@.len(),
            views == parts@.map_values(|x: String| x@),
            flags == views.skip(2),
            is_key == has_flag(flags.take(i - 2), "key"@, "pk"@),
            not_null == has_flag(flags.take(i - 2), "notnull"@, "not_null"@),
        decreases parts@.len() - i,
    {
        let part = parts[i].as_str();
        let k = eq_ignore_case(part, "key") || eq_ignore_case(part, "pk");
        let n = eq_ignore_case(part, "notnull") || eq_ignore_case(part, "not_null");
        proof {
            let prev = flags.take(i - 2);
            let next = flags.take(i - 1);
            assert(next =~= prev.push(views[i as int]));
            if has_flag(prev, "key"@, "pk"@) {
                let w = choose|j: int|
                    0 <= j < prev.len() && (lower_seq(#[trigger] prev[j]) == lower_seq("key"@)
                        || lower_seq(prev[j]) == lower_seq("pk"@));
                assert(next[w] == prev[w]);
            }
            if has_flag(prev, "notnull"@, "not_null"@) {
                let w = choose|j: int|
                    0 <= j < prev.len() && (lower_seq(#[trigger] prev[j]) == lower_seq("notnull"@)
                        || lower_seq(prev[j]) == lower_seq("not_null"@));
                assert(next[w] == prev[w]);
            }
            if k {
                assert(next[i - 2] == views[i as int]);
            }
            if n {
                assert(next[i - 2] == views[i as int]);
            }
            if has_flag(next, "key"@, "pk"@) && !k {
                let w = choose|j: int|
                    0 <= j < next.len() && (lower_seq(#[trigger] next[j]) == lower_seq("key"@)
                        || lower_seq(next[j]) == lower_seq("pk"@));
                if w < prev.len() {
                    assert(prev[w] == next[w]);
                }
            }
            if has_flag(next, "notnull"@, "not_null"@) && !n {
                let w = choose|j: int|
                    0 <= j < next.len() && (lower_seq(#[trigger] next[j]) == lower_seq(
                        "notnull"@,
                    ) || lower_seq(next[j]) == lower_seq("not_null"@));
                if w < prev.len() {
                    assert(prev[w] == next[w]);
                }
            }
        }
        is_key = is_key || k;
        not_null = not_null || n;
        i += 1;
    }
    assert(flags.take(parts@.len() - 2) =~= flags);
    Some(
        TableFieldDefinition {
            name: to_upper(parts[0].as_str()),
            data_type: parts[1].clone(),
            is_key,
            not_null,
        },
    )
}

/// The DDL line of one field: `key ` for a key, the lower-cased name, the
/// type, and ` not null` for a key or a field that must not be null.
pub open spec fn spec_field_line(f: FieldView) -> Seq<char> {
    "  "@ + (if f.2 {
        "key "@
    } else {
        Seq::empty()
    }) + lower_seq(f.0) + " : "@ + f.1 + (if f.3 || f.2 {
        " not null"@
    } else {
        Seq::empty()
    }) + ";"@
}

/// The DDL lines of the fields, joined by line breaks.
pub open spec fn spec_field_lines(fields: Seq<FieldView>) -> Seq<char> {
    join_seq(fields.map_values(|f: FieldView| spec_field_line(f)), "\n"@)
}

/// The DDL source of a transparent table: its label (single quotes
/// doubled), delivery class and name (trimmed, upper-cased), and one line
/// per field.
pub open spec fn spec_table_ddl(
    table_name: Seq<char>,
    description: Seq<char>,
    delivery_class: Seq<char>,
    fields: Seq<FieldView>,
) -> Seq<char> {
    "@EndUserText.label : '"@ + crate::text::replace_seq(description, "'"@, "''"@)
        + "'\n@AbapCatalog.tableCategory : #TRANSPARENT\n@AbapCatalog.deliveryClass : #"@
        + upper_seq(trim_seq(delivery_class))
        + "\n@AbapCatalog.dataMaintenance : #ALLOWED\ndefine table "@ + upper_seq(
        trim_seq(table_name),
    ) + " {\n"@ + spec_field_lines(fields) + "\n}\n"@
}

/// The DDL line of one field.
fn field_line(f: &TableFieldDefinition) -> (r: String)
    ensures
        r@ == spec_field_line(field_view(*f)),
{
    let mut r = owned("  ");
    if f.is_key {
        append(&mut r, "key ");
    }
    append(&mut r, to_lower(f.name.as_str()).as_str());
    append(&mut r, " : ");
    append(&mut r, f.data_type.as_str());
    if f.not_null || f.is_key {
        append(&mut r, " not null");
    }
    append(&mut r, ";");
    assert(r@ =~= spec_field_line(field_view(*f)));
    r
}

/// The DDL source of a transparent table.
pub fn build_table_ddl(
    table_name: &str,
    description: &str,
    delivery_class: &str,
    fields: &[TableFieldDefinition],
) -> (r: String)
    ensures
        r@ == spec_table_ddl(table_name@, description@, delivery_class@, fields_view(fields@)),
{
    let ghost lines = fields_view(fields@).map_values(|f: FieldView| spec_field_line(f));
    let mut joined = String::new();
    let mut i: usize = 0;
    while i < fields.len()
        invariant
            i <= fields@.len(),
            lines == fields_view(fields@).map_values(|f: FieldView| spec_field_line(f)),
            joined@ == join_seq(lines.take(i as int), "\n"@),
        decreases fields@.len() - i,
    {
        assert(lines.take(i + 1).drop_last() =~= lines.take(i as int));
        let line = field_line(&fields[i]);
        proof {
            reveal_strlit("\n");
        }
        if i > 0 {
            append(&mut joined, "\n");
        }
        append(&mut joined, line.as_str());
        proof {
            if i == 0 {
                assert(lines.take(1) =~= seq![lines[0]]);
                assert(joined@ =~= lines[0]);
            }
        }
        i += 1;
    }
    assert(lines.take(fields@.len() as int) =~= lines);
    proof {
        reveal_strlit("'");
    }
    let mut r = owned("@EndUserText.label : '");
    append(&mut r, crate::text::replace(description, "'", "''").as_str());
    append(&mut r, "'\n@AbapCatalog.tableCategory : #TRANSPARENT\n@AbapCatalog.deliveryClass : #");
    append(&mut r, to_upper(trim(delivery_class).as_str()).as_str());
    append(&mut r, "\n@AbapCatalog.dataMaintenance : #ALLOWED\ndefine table ");
    append(&mut r, to_upper(trim(table_name).as_str()).as_str());
    append(&mut r, " {\n");
    append(&mut r, joined.as_str());
    append(&mut r, "\n}\n");
    assert(r@ =~= spec_table_ddl(table_name@, description@, delivery_class@, fields_view(fields@)));
    r
}


/// An object name that an export file name can carry: ASCII, not empty,
/// without whitespace, dots, slashes or backslashes, and not read as a
/// drive (no colon as its second character).
pub open spec fn bare_name(n: Seq<char>) -> bool {
    &&& n.len() > 0
    &&& forall|i: int|
        0 <= i < n.len() ==> '\0' <= #[trigger] n[i] <= '\u{7f}' && !is_ws(n[i]) && n[i] != '.' && n[i] != '/'
            && n[i] != '\\'
    &&& !(n.len() >= 2 && n[1] == ':')
}

/// The export files that name their object's type: the suffix of the file,
/// the long type it stands for, and the class section, if any. `None` for
/// a type whose export file does not say its type back.
pub open spec fn export_suffix(object_type: Seq<char>, section: Seq<char>) -> Option<
    (Seq<char>, Seq<char>, Option<Seq<char>>),
> {
    let t = canon(object_type);
    let part = lower_seq(trim_seq(section));
    if t == "CLAS"@ || t == "CLAS/OC"@ {
        if part.len() == 0 || part == "main"@ {
            Some(("clas"@, "CLAS/OC"@, None))
        } else if is_class_section_suffix(part) {
            Some((part, "CLAS/OC"@, Some(part)))
        } else {
            None
        }
    } else if t == "INTF"@ || t == "INTF/OI"@ {
        Some(("intf"@, "INTF/OI"@, None))
    } else if t == "PROG"@ || t == "PROG/P"@ {
        Some(("prog"@, "PROG/P"@, None))
    } else if t == "PROG/I"@ || t == "INCL"@ || t == "INCLUDE"@ {
        Some(("incl"@, "PROG/I"@, None))
    } else if t == "TABL"@ || t == "TABL/DT"@ {
        Some(("tabl"@, "TABL/DT"@, None))
    } else if t == "DDLS"@ || t == "DDLS/DF"@ {
        Some(("ddls"@, "DDLS/DF"@, None))
    } else if t == "SRVD"@ || t == "SRVD/SRV"@ {
        Some(("srvd"@, "SRVD/SRV"@, None))
    } else if t == "SRVB"@ || t == "SRVB/SVB"@ {
        Some(("srvb"@, "SRVB/SVB"@, None))
    } else {
        None
    }
}

/// Lower-casing keeps a bare name bare, and upper-casing it afterwards
/// gives the upper-cased name.
proof fn lemma_lower_bare(n: Seq<char>)
    requires
        bare_name(n),
    ensures
        bare_name(lower_seq(n)),
        upper_seq(lower_seq(n)) == upper_seq(n),
        trim_seq(n) == n,
{
    assert forall|i: int| 0 <= i < n.len() implies '\0' <= #[trigger] lower_seq(n)[i] <= '\u{7f}' && !is_ws(
        lower_seq(n)[i],
    ) && lower_seq(n)[i] != '.' && lower_seq(n)[i] != '/' && lower_seq(n)[i] != '\\' && (lower_seq(n)[i] == ':'
        ==> n[i] == ':') by {
        lemma_lower_char_ws(n[i]);
        let c = n[i];
        if 'A' <= c && c <= 'Z' {
            assert(lower_char(c) == ((c as u8) + 32) as char);
        }
    }
    if n.len() >= 2 {
        assert(lower_seq(n)[1] == ':' ==> n[1] == ':');
    }
    lemma_upper_of_lower(n);
    lemma_trim_unchanged(n);
}

/// `a.b` splits at its one dot into `a` and `b`.
proof fn lemma_split_two(a: Seq<char>, b: Seq<char>)
    requires
        !a.contains('.'),
        !b.contains('.'),
    ensures
        split_seq(a + seq!['.'] + b, '.') == seq![a, b],
{
    let s = a + seq!['.'] + b;
    let p = seq!['.'];
    lemma_find_from(s, p, 0);
    assert(s.subrange(a.len() as int, (a.len() + 1) as int) =~= p);
    assert(occurs_at(s, p, a.len() as int));
    assert forall|k: int| 0 <= k < a.len() implies !occurs_at(s, p, k) by {
        assert(s[k] == a[k]);
        if occurs_at(s, p, k) {
            assert(s.subrange(k, k + 1)[0] == s[k]);
        }
    }
    let j = find_seq(s, p).unwrap();
    assert(j == a.len());
    assert(s.take(a.len() as int) =~= a);
    assert(s.skip((a.len() + 1) as int) =~= b);
    lemma_split_absent(b, '.');
    assert(split_seq(s, '.') =~= seq![a] + seq![b]);
}

/// Two trimmed, non-empty pieces are kept as they are.
proof fn lemma_clean_two(a: Seq<char>, b: Seq<char>)
    requires
        trim_seq(a) == a,
        trim_seq(b) == b,
        a.len() > 0,
        b.len() > 0,
    ensures
        clean_pieces(seq![a, b]) == seq![a, b],
{
    reveal_with_fuel(clean_pieces, 3);
    assert(seq![a, b].drop_last() =~= seq![a]);
    assert(seq![a].drop_last() =~= Seq::<Seq<char>>::empty());
    assert(clean_pieces(seq![a]) =~= seq![a]);
    assert(clean_pieces(seq![a, b]) =~= seq![a, b]);
}

/// The export file name of an object, parsed back, gives the object: its
/// long type, its upper-cased name and, for a class section, the section
/// (the file name is a plain component, so `Path::file_name` keeps it, as
/// `parse_abap_file_info` states). Behaviour definitions are left out:
/// their `.bdef.abap` files are refused by the parser; so are names with a
/// colon as their second character, which Windows reads as a drive.
pub proof fn law_export_file_name_parses_back(object_type: Seq<char>, object_name: Seq<char>, section: Seq<char>)
    requires
        bare_name(object_name),
    ensures
        export_suffix(object_type, section) is Some ==> plain_component(
            spec_default_export_filename(object_type, object_name, section),
        ),
        export_suffix(object_type, section) matches Some((ext, typ, inc)) ==> (path_file_name(
            spec_default_export_filename(object_type, object_name, section),
        ) == Some(spec_default_export_filename(object_type, object_name, section)) ==> spec_parse_abap_file_info(
            spec_default_export_filename(object_type, object_name, section),
        ) == Ok::<FileInfoView, Seq<char>>((typ, upper_seq(object_name), None, inc))),
{
    reveal_strlit(".clas.abap");
    reveal_strlit(".intf.abap");
    reveal_strlit(".prog.abap");
    reveal_strlit(".incl.abap");
    reveal_strlit(".tabl.abap");
    reveal_strlit(".ddls.abap");
    reveal_strlit(".srvd.abap");
    reveal_strlit(".srvb.abap");
    reveal_strlit(".abap");
    reveal_strlit(".");
    reveal_strlit("clas");
    reveal_strlit("intf");
    reveal_strlit("prog");
    reveal_strlit("incl");
    reveal_strlit("tabl");
    reveal_strlit("ddls");
    reveal_strlit("srvd");
    reveal_strlit("srvb");
    reveal_strlit("locals_def");
    reveal_strlit("locals_imp");
    reveal_strlit("macros");
    reveal_strlit("testclasses");
    reveal_strlit("main");
    reveal_strlit("program");
    reveal_strlit("include");
    reveal_strlit("class");
    reveal_strlit("interface");
    reveal_strlit("table");
    reveal_strlit("ddl");
    reveal_strlit("fugr");
    reveal_strlit("fmod");
    reveal_strlit("func");
    reveal_strlit("PROG/P");
    reveal_strlit("PROG/I");
    reveal_strlit("CLAS/OC");
    reveal_strlit("INTF/OI");
    reveal_strlit("TABL/DT");
    reveal_strlit("DDLS/DF");
    reveal_strlit("SRVD/SRV");
    reveal_strlit("SRVB/SVB");
    reveal_strlit("FUGR/F");
    reveal_strlit("CLAS");
    reveal_strlit("INTF");
    reveal_strlit("PROG");
    reveal_strlit("INCL");
    reveal_strlit("INCLUDE");
    reveal_strlit("TABL");
    reveal_strlit("DDLS");
    reveal_strlit("SRVD");
    reveal_strlit("SRVB");
    reveal_strlit("BDEF");
    reveal_strlit("BDEF/BDO");
    reveal_strlit("..");
    if let Some((ext, typ, inc)) = export_suffix(object_type, section) {
        lemma_lower_bare(object_name);
        let name = lower_seq(trim_seq(object_name));
        let f = spec_default_export_filename(object_type, object_name, section);
        assert(ext.len() > 0 && !ext.contains('.') && trim_seq(ext) == ext && lower_seq(ext) == ext && !ext.contains('/')
            && !ext.contains('\\') && !ext.contains(':')) by {
            assert(forall|i: int| 0 <= i < ext.len() ==> 'a' <= #[trigger] ext[i] <= 'z' || ext[i] == '_');
            lemma_trim_unchanged(ext);
            assert(lower_seq(ext) =~= ext);
        }
        assert(".clas.abap"@ =~= seq!['.'] + "clas"@ + ".abap"@);
        assert(".intf.abap"@ =~= seq!['.'] + "intf"@ + ".abap"@);
        assert(".prog.abap"@ =~= seq!['.'] + "prog"@ + ".abap"@);
        assert(".incl.abap"@ =~= seq!['.'] + "incl"@ + ".abap"@);
        assert(".tabl.abap"@ =~= seq!['.'] + "tabl"@ + ".abap"@);
        assert(".ddls.abap"@ =~= seq!['.'] + "ddls"@ + ".abap"@);
        assert(".srvd.abap"@ =~= seq!['.'] + "srvd"@ + ".abap"@);
        assert(".srvb.abap"@ =~= seq!['.'] + "srvb"@ + ".abap"@);
        assert("."@ =~= seq!['.']);
        assert(name + seq!['.'] + ext + ".abap"@ =~= name + (seq!['.'] + ext + ".abap"@));
        let t = canon(object_type);
        let part = lower_seq(trim_seq(section));
        if t == "CLAS"@ || t == "CLAS/OC"@ {
            if part.len() == 0 || part == "main"@ {
                assert(f == name + ".clas.abap"@);
            } else {
                assert(f == name + "."@ + part + ".abap"@);
                assert(name + "."@ + part + ".abap"@ =~= name + seq!['.'] + ext + ".abap"@);
            }
        } else if t == "INTF"@ || t == "INTF/OI"@ {
            assert(f == name + ".intf.abap"@);
        } else if t == "PROG"@ || t == "PROG/P"@ {
            assert(f == name + ".prog.abap"@);
        } else if t == "PROG/I"@ || t == "INCL"@ || t == "INCLUDE"@ {
            assert(f == name + ".incl.abap"@);
        } else if t == "TABL"@ || t == "TABL/DT"@ {
            assert(f == name + ".tabl.abap"@);
        } else if t == "DDLS"@ || t == "DDLS/DF"@ {
            assert(f == name + ".ddls.abap"@);
        } else if t == "SRVD"@ || t == "SRVD/SRV"@ {
            assert(t[0] == 'S' && "BDEF"@[0] == 'B' && "BDEF/BDO"@[0] == 'B');
            assert(f == name + ".srvd.abap"@);
        } else {
            assert(t[0] == 'S' && "BDEF"@[0] == 'B' && "BDEF/BDO"@[0] == 'B');
            assert(f == name + ".srvb.abap"@);
        }
        assert(f =~= name + seq!['.'] + ext + ".abap"@);
        let stem = name + seq!['.'] + ext;
        assert(f.take(f.len() - 5) =~= stem);
        assert(f.skip(f.len() - 5) =~= ".abap"@);
        lemma_split_two(name, ext);
        lemma_clean_two(name, ext);
        assert(!f.contains('/') && !f.contains('\\') && !(f.len() >= 2 && f[1] == ':')) by {
            if name.len() >= 2 {
                assert(f[1] == name[1]);
            } else {
                assert(f[1] == '.');
            }
            assert forall|i: int| 0 <= i < f.len() implies #[trigger] f[i] != '/' && f[i] != '\\' by {
                if i < name.len() {
                    assert(f[i] == name[i]);
                } else if i == name.len() {
                } else if i < name.len() + 1 + ext.len() {
                    assert(f[i] == ext[i - name.len() - 1]);
                } else {
                    assert(f[i] == ".abap"@[i - name.len() - 1 - ext.len()]);
                }
            }
        }
        assert(f != "."@ && f != ".."@) by {
            assert(f.len() >= 7);
        }
        let parts = seq![name, ext];
        assert(parts.drop_last() =~= seq![name]);
        assert(join_seq(seq![name], "."@) == name);
    }
}

} // verus!
