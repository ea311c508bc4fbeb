//! Regular expressions, through the `regex` crate.
use vstd::prelude::*;

verus! {

/// The message of the error that compiling `pattern` gives (with case
/// folding when `case_insensitive`), `None` when it compiles
/// (`RegexBuilder::build`).
pub uninterp spec fn regex_build_error(pattern: Seq<char>, case_insensitive: bool) -> Option<
    Seq<char>,
>;

/// The capture groups of the successive non-overlapping matches of a
/// compiling `pattern` in `text`, from left to right; each match lists its
/// groups by number, the whole match first, and a group that did not take
/// part as `None` (`Regex::captures_iter`).
pub uninterp spec fn regex_capture_list(
    pattern: Seq<char>,
    case_insensitive: bool,
    text: Seq<char>,
) -> Seq<Seq<Option<Seq<char>>>>;

/// `text` with the first match (or, when `all`, every match) of a
/// compiling `pattern` replaced by `replacement`, in which `$` references
/// to groups are expanded (`Regex::replace`, `Regex::replace_all`).
pub uninterp spec fn regex_replacement(
    pattern: Seq<char>,
    case_insensitive: bool,
    text: Seq<char>,
    replacement: Seq<char>,
    all: bool,
) -> Seq<char>;

/// The characters that have a meaning in a pattern
/// (`regex_syntax::is_meta_character`).
pub open spec fn is_regex_meta(c: char) -> bool {
    c == '\\' || c == '.' || c == '+' || c == '*' || c == '?' || c == '(' || c == ')' || c == '|' || c == '['
        || c == ']' || c == '{' || c == '}' || c == '^' || c == '$' || c == '#' || c == '&' || c == '-' || c == '~'
}

/// `text` with a backslash before every character that has a meaning in a
/// pattern, so that the pattern matches `text` literally.
pub open spec fn regex_escaped(text: Seq<char>) -> Seq<char>
    decreases text.len(),
{
    if text.len() == 0 {
        Seq::empty()
    } else {
        (if is_regex_meta(text[0]) {
            seq!['\\', text[0]]
        } else {
            seq![text[0]]
        }) + regex_escaped(text.skip(1))
    }
}

/// Escapes `text` for use in a pattern (`regex::escape`, which writes a
/// backslash before each meta character and keeps every other character).
/// Claimed: the result is `regex_escaped(text)`.
#[verifier::external_body]
pub fn escape(text: &str) -> (r: String)
    ensures
        r@ == regex_escaped(text@),
{
    regex::escape(text)
}

/// Compiles `pattern` (`RegexBuilder::new`, `case_insensitive`, `build`)
/// and gives back the error's message, `None` when it compiles. Claimed:
/// the outcome depends on the two arguments alone.
#[verifier::external_body]
pub fn build_error(pattern: &str, case_insensitive: bool) -> (r: Option<String>)
    ensures
        match r {
            Some(e) => regex_build_error(pattern@, case_insensitive) == Some(e@),
            None => regex_build_error(pattern@, case_insensitive) is None,
        },
{
    regex::RegexBuilder::new(pattern).case_insensitive(case_insensitive).build().err().map(
        |error| error.to_string(),
    )
}

/// The groups of every match of a compiling `pattern` in `text`
/// (`Regex::captures_iter`, each group by `Captures::iter`). Claimed: the
/// result depends on the three arguments alone.
#[verifier::external_body]
pub fn captures(pattern: &str, case_insensitive: bool, text: &str) -> (r: Vec<Vec<Option<String>>>)
    requires
        regex_build_error(pattern@, case_insensitive) is None,
    ensures
        r@.map_values(|m: Vec<Option<String>>| m@.map_values(|g: Option<String>| crate::xml::opt_text(g)))
            == regex_capture_list(pattern@, case_insensitive, text@),
{
    match regex::RegexBuilder::new(pattern).case_insensitive(case_insensitive).build() {
        Ok(re) => re.captures_iter(text).map(
            |c| c.iter().map(|g| g.map(|m| m.as_str().to_owned())).collect(),
        ).collect(),
        Err(_) => Vec::new(),
    }
}

/// Replaces the first match of a compiling `pattern` in `text`
/// (`Regex::replace`). Claimed: the result depends on the four arguments
/// alone.
#[verifier::external_body]
fn replace_first(pattern: &str, case_insensitive: bool, text: &str, replacement: &str) -> (r: String)
    requires
        regex_build_error(pattern@, case_insensitive) is None,
    ensures
        r@ == regex_replacement(pattern@, case_insensitive, text@, replacement@, false),
{
    match regex::RegexBuilder::new(pattern).case_insensitive(case_insensitive).build() {
        Ok(re) => re.replace(text, replacement).into_owned(),
        Err(_) => text.to_owned(),
    }
}

/// Replaces every match of a compiling `pattern` in `text`
/// (`Regex::replace_all`). Claimed: the result depends on the four
/// arguments alone.
#[verifier::external_body]
fn replace_every(pattern: &str, case_insensitive: bool, text: &str, replacement: &str) -> (r: String)
    requires
        regex_build_error(pattern@, case_insensitive) is None,
    ensures
        r@ == regex_replacement(pattern@, case_insensitive, text@, replacement@, true),
{
    match regex::RegexBuilder::new(pattern).case_insensitive(case_insensitive).build() {
        Ok(re) => re.replace_all(text, replacement).into_owned(),
        Err(_) => text.to_owned(),
    }
}

/// Replaces the first match, or every match when `all`, of a compiling
/// `pattern` in `text`.
pub fn replace(pattern: &str, case_insensitive: bool, text: &str, replacement: &str, all: bool) -> (r: String)
    requires
        regex_build_error(pattern@, case_insensitive) is None,
    ensures
        r@ == regex_replacement(pattern@, case_insensitive, text@, replacement@, all),
{
    if all {
        replace_every(pattern, case_insensitive, text, replacement)
    } else {
        replace_first(pattern, case_insensitive, text, replacement)
    }
}

} // verus!
