//! Searching sources with a pattern: the matching lines of one source with
//! their context, and which objects of a package are searched.
use vstd::prelude::*;

use crate::errors::NeuroMcpError;
use crate::mcp::diff::{lines_of, text_lines};
use crate::mcp::pattern::{build_error, captures, regex_build_error, regex_capture_list};
use crate::mcp::paths::spec_is_source_object_type;
use crate::mcp::xmltext::{reference_view, ReferenceView, XmlReference};
use crate::text::{concat, eq_ignore_case, lower_seq};

verus! {

/// One matching line: its number (from 1), its text, and the lines of
/// context before and after it.
#[derive(Clone, Debug)]
pub struct LineMatch {
    pub line_number: usize,
    pub matched_line: String,
    pub context_before: Vec<String>,
    pub context_after: Vec<String>,
}

/// A matching line as plain values.
pub type LineMatchView = (int, Seq<char>, Seq<Seq<char>>, Seq<Seq<char>>);

/// A matching line as plain values.
pub open spec fn line_match_view(m: LineMatch) -> LineMatchView {
    (
        m.line_number as int,
        m.matched_line@,
        m.context_before@.map_values(|s: String| s@),
        m.context_after@.map_values(|s: String| s@),
    )
}

/// A line matches when the pattern finds a match in it.
pub open spec fn line_matches(pattern: Seq<char>, case_insensitive: bool, line: Seq<char>) -> bool {
    regex_capture_list(pattern, case_insensitive, line).len() > 0
}

/// The match at line `i`, with up to `context` lines on each side.
pub open spec fn match_at(lines: Seq<Seq<char>>, i: int, context: int) -> LineMatchView {
    let start = if i - context < 0 {
        0
    } else {
        i - context
    };
    let end = if lines.len() < i + context + 1 {
        lines.len() as int
    } else {
        i + context + 1
    };
    (i + 1, lines[i], lines.subrange(start, i), lines.subrange(i + 1, end))
}

/// The matches among the first `n` lines, in order.
pub open spec fn matches_upto(
    lines: Seq<Seq<char>>,
    pattern: Seq<char>,
    case_insensitive: bool,
    context: int,
    n: int,
) -> Seq<LineMatchView>
    decreases n,
{
    if n <= 0 {
        Seq::empty()
    } else {
        let rest = matches_upto(lines, pattern, case_insensitive, context, n - 1);
        if line_matches(pattern, case_insensitive, lines[n - 1]) {
            rest.push(match_at(lines, n - 1, context))
        } else {
            rest
        }
    }
}

/// The lines of `source` that the pattern matches, each with `context`
/// lines around it; a pattern that does not compile is refused.
pub open spec fn spec_grep_source(
    source: Seq<char>,
    pattern: Seq<char>,
    case_insensitive: bool,
    context: u32,
) -> Result<Seq<LineMatchView>, Seq<char>> {
    match regex_build_error(pattern, case_insensitive) {
        Some(m) => Err("invalid regex pattern: "@ + m),
        None => {
            let lines = lines_of(source);
            Ok(matches_upto(lines, pattern, case_insensitive, context as int, lines.len() as int))
        },
    }
}

/// The strings `v[from..to]`.
fn copy_range(v: &Vec<String>, from: usize, to: usize) -> (r: Vec<String>)
    requires
        from <= to <= v@.len(),
    ensures
        r@.map_values(|s: String| s@) == v@.map_values(|s: String| s@).subrange(from as int, to as int),
{
    let mut out: Vec<String> = Vec::new();
    let mut k = from;
    while k < to
        invariant
            from <= k <= to <= v@.len(),
            out@.len() == k - from,
            forall|j: int| 0 <= j < out@.len() ==> #[trigger] out@[j]@ == v@[from + j]@,
        decreases to - k,
    {
        out.push(v[k].clone());
        k += 1;
    }
    assert(out@.map_values(|s: String| s@) =~= v@.map_values(|s: String| s@).subrange(from as int, to as int));
    out
}

/// The lines of `source` that the pattern matches, with their context.
pub fn grep_source(source: &str, pattern: &str, case_insensitive: bool, context_lines: u32) -> (r: Result<
    Vec<LineMatch>,
    NeuroMcpError,
>)
    ensures
        match spec_grep_source(source@, pattern@, case_insensitive, context_lines) {
            Ok(v) => r matches Ok(ms) && ms@.map_values(|m: LineMatch| line_match_view(m)) == v,
            Err(m) => r matches Err(NeuroMcpError::InvalidArguments { tool, message }) && tool@
                == "GrepObject"@ && message@ == m,
        },
{
    match build_error(pattern, case_insensitive) {
        Some(e) => {
            let message = concat("invalid regex pattern: ", e.as_str());
            return Err(crate::mcp::create::invalid_arguments("GrepObject", message.as_str()));
        },
        None => {},
    }
    let lines = text_lines(source);
    let ghost lv = lines@.map_values(|s: String| s@);
    let n = lines.len();
    let ctx = context_lines as usize;
    let mut out: Vec<LineMatch> = Vec::new();
    let mut i: usize = 0;
    while i < n
        invariant
            i <= n == lines@.len(),
            lv == lines@.map_values(|s: String| s@),
            lv == lines_of(source@),
            ctx == context_lines,
            regex_build_error(pattern@, case_insensitive) is None,
            out@.map_values(|m: LineMatch| line_match_view(m)) == matches_upto(
                lv,
                pattern@,
                case_insensitive,
                ctx as int,
                i as int,
            ),
        decreases n - i,
    {
        let found = captures(pattern, case_insensitive, lines[i].as_str());
        proof {
            assert(lines@[i as int]@ == lv[i as int]);
            assert(found@.map_values(|m: Vec<Option<String>>| m@.map_values(|g: Option<String>| crate::xml::opt_text(g))).len() == found@.len());
        }
        if found.len() > 0 {
            let start = if i < ctx {
                0
            } else {
                i - ctx
            };
            let end = if n - i <= ctx {
                n
            } else {
                i + ctx + 1
            };
            let m = LineMatch {
                line_number: i + 1,
                matched_line: lines[i].clone(),
                context_before: copy_range(&lines, start, i),
                context_after: copy_range(&lines, i + 1, end),
            };
            let ghost before = out@;
            let ghost mv = line_match_view(m);
            assert(mv == match_at(lv, i as int, ctx as int));
            out.push(m);
            assert(out@.map_values(|m: LineMatch| line_match_view(m)) =~= before.map_values(|m: LineMatch| line_match_view(m)).push(mv));
        }
        i += 1;
    }
    Ok(out)
}

/// The references of a package that are searched: objects with source
/// text, of one of the listed types (in any letter case) when a list is
/// given, in order.
pub open spec fn spec_grep_targets(refs: Seq<ReferenceView>, filters: Seq<Seq<char>>) -> Seq<Seq<char>>
    decreases refs.len(),
{
    if refs.len() == 0 {
        Seq::empty()
    } else {
        let rest = spec_grep_targets(refs.drop_last(), filters);
        let r = refs.last();
        if spec_is_source_object_type(r.1) && (filters.len() == 0 || exists|k: int|
            0 <= k < filters.len() && lower_seq(#[trigger] filters[k]) == lower_seq(r.1)) {
            rest.push(r.2)
        } else {
            rest
        }
    }
}

/// Whether a type is among the filters, in any letter case.
fn type_listed(filters: &Vec<String>, object_type: &str) -> (r: bool)
    ensures
        r == exists|k: int|
            0 <= k < filters@.len() && lower_seq(#[trigger] filters@[k]@) == lower_seq(object_type@),
{
    let mut k: usize = 0;
    while k < filters.len()
        invariant
            k <= filters@.len(),
            forall|j: int| 0 <= j < k ==> lower_seq(#[trigger] filters@[j]@) != lower_seq(object_type@),
        decreases filters@.len() - k,
    {
        if eq_ignore_case(filters[k].as_str(), object_type) {
            return true;
        }
        k += 1;
    }
    false
}

/// The URIs of the references of a package that are searched.
pub fn grep_targets(refs: &Vec<XmlReference>, filters: &Vec<String>) -> (r: Vec<String>)
    ensures
        r@.map_values(|s: String| s@) == spec_grep_targets(
            refs@.map_values(|x: XmlReference| reference_view(x)),
            filters@.map_values(|s: String| s@),
        ),
{
    let ghost rv = refs@.map_values(|x: XmlReference| reference_view(x));
    let ghost fv = filters@.map_values(|s: String| s@);
    let mut out: Vec<String> = Vec::new();
    let mut i: usize = 0;
    while i < refs.len()
        invariant
            i <= refs@.len(),
            rv == refs@.map_values(|x: XmlReference| reference_view(x)),
            fv == filters@.map_values(|s: String| s@),
            out@.map_values(|s: String| s@) == spec_grep_targets(rv.take(i as int), fv),
        decreases refs@.len() - i,
    {
        assert(rv.take(i + 1).drop_last() =~= rv.take(i as int));
        assert(rv.take(i + 1).last() == reference_view(refs@[i as int]));
        let r = &refs[i];
        let listed = filters.len() == 0 || type_listed(filters, r.object_type.as_str());
        proof {
            if filters@.len() > 0 {
                assert((exists|k: int| 0 <= k < fv.len() && lower_seq(#[trigger] fv[k]) == lower_seq(r.object_type@))
                    == (exists|k: int| 0 <= k < filters@.len() && lower_seq(#[trigger] filters@[k]@) == lower_seq(r.object_type@))) by {
                    if exists|k: int| 0 <= k < fv.len() && lower_seq(#[trigger] fv[k]) == lower_seq(r.object_type@) {
                        let k = choose|k: int| 0 <= k < fv.len() && lower_seq(#[trigger] fv[k]) == lower_seq(r.object_type@);
                        assert(lower_seq(filters@[k]@) == lower_seq(r.object_type@));
                    }
                    if exists|k: int| 0 <= k < filters@.len() && lower_seq(#[trigger] filters@[k]@) == lower_seq(r.object_type@) {
                        let k = choose|k: int| 0 <= k < filters@.len() && lower_seq(#[trigger] filters@[k]@) == lower_seq(r.object_type@);
                        assert(lower_seq(fv[k]) == lower_seq(r.object_type@));
                    }
                }
            }
        }
        if crate::mcp::paths::is_source_object_type(r.object_type.as_str()) && listed {
            let ghost before = out@;
            out.push(r.uri.clone());
            assert(out@.map_values(|s: String| s@) =~= before.map_values(|s: String| s@).push(r.uri@));
        }
        i += 1;
    }
    assert(rv.take(refs@.len() as int) =~= rv);
    out
}

/// What a search over several packages has gathered: how many objects it
/// keeps at most (0 for no limit), how many it keeps so far, and the sum of
/// their match counts.
pub struct GrepTally {
    pub max_results: usize,
    pub kept: usize,
    pub total_matches: u64,
}

impl GrepTally {
    /// The search has kept as many objects as it may.
    pub open spec fn spec_is_full(self) -> bool {
        self.max_results > 0 && self.kept >= self.max_results
    }

    /// An empty tally with the given limit (0 for none).
    pub fn new(max_results: usize) -> (r: GrepTally)
        ensures
            r.max_results == max_results,
            r.kept == 0,
            r.total_matches == 0,
    {
        GrepTally { max_results, kept: 0, total_matches: 0 }
    }

    /// Whether the search has kept as many objects as it may: no more are
    /// taken and no further package is searched.
    pub fn is_full(&self) -> (r: bool)
        ensures
            r == self.spec_is_full(),
    {
        self.max_results > 0 && self.kept >= self.max_results
    }

    /// How many objects each package search may give: the limit, or 1000
    /// when there is none.
    pub fn per_package_limit(&self) -> (r: usize)
        ensures
            r == if self.max_results == 0 {
                1000
            } else {
                self.max_results
            },
    {
        if self.max_results == 0 {
            1000
        } else {
            self.max_results
        }
    }

    /// Keeps one more object, with `match_count` matches.
    pub fn keep(&mut self, match_count: u64)
        requires
            !old(self).spec_is_full(),
            old(self).kept < usize::MAX,
            old(self).total_matches + match_count <= u64::MAX,
        ensures
            final(self).max_results == old(self).max_results,
            final(self).kept == old(self).kept + 1,
            final(self).total_matches == old(self).total_matches + match_count,
            final(self).max_results > 0 ==> final(self).kept <= final(self).max_results,
    {
        self.kept = self.kept + 1;
        self.total_matches = self.total_matches + match_count;
    }
}

} // verus!
