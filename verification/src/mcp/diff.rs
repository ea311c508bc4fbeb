//! A line-by-line comparison of two source texts.
use vstd::prelude::*;

use crate::text::{owned, split, split_seq, str_eq};
use crate::xml::opt_text;

verus! {

/// `p` without one trailing carriage return.
pub open spec fn strip_cr(p: Seq<char>) -> Seq<char> {
    if p.len() > 0 && p.last() == '\r' {
        p.drop_last()
    } else {
        p
    }
}

/// The lines of a text as `str::lines` gives them: split at each line
/// feed, a carriage return before a line feed dropped, and no empty line
/// after a final line feed.
pub open spec fn lines_of(s: Seq<char>) -> Seq<Seq<char>> {
    let pieces = split_seq(s, '\n');
    let n = pieces.len() as int;
    if pieces[n - 1].len() == 0 {
        Seq::new((n - 1) as nat, |i: int| strip_cr(pieces[i]))
    } else {
        Seq::new(n as nat, |i: int| if i < n - 1 { strip_cr(pieces[i]) } else { pieces[i] })
    }
}

/// The lines of a text, as `str::lines` gives them.
pub fn text_lines(s: &str) -> (r: Vec<String>)
    ensures
        r@.map_values(|x: String| x@) == lines_of(s@),
{
    let pieces = split(s, '\n');
    proof {
        crate::mcp::paths::lemma_split_nonempty(s@, '\n');
    }
    let ghost all = split_seq(s@, '\n');
    let n = pieces.len();
    let keep = if pieces[n - 1].as_str().is_empty() {
        n - 1
    } else {
        n
    };
    let mut out: Vec<String> = Vec::new();
    let mut i: usize = 0;
    while i < keep
        invariant
            i <= keep <= n,
            n - 1 <= keep,
            n == pieces@.len(),
            n == all.len(),
            all == split_seq(s@, '\n'),
            n >= 1,
            keep == n - 1 <==> all[n - 1].len() == 0,
            forall|k: int| 0 <= k < n ==> #[trigger] pieces@[k]@ == all[k],
            out@.len() == i,
            forall|k: int| 0 <= k < i ==> #[trigger] out@[k]@ == lines_of(s@)[k],
        decreases keep - i,
    {
        let piece = pieces[i].as_str();
        let chars = crate::text::to_chars(piece);
        let line = if i < n - 1 && chars.len() > 0 && chars[chars.len() - 1] == '\r' {
            crate::text::from_chars_range(chars.as_slice(), 0, chars.len() - 1)
        } else {
            owned(piece)
        };
        proof {
            let ls = lines_of(s@);
            assert(ls.len() == keep);
            assert(ls[i as int] == if i < n - 1 {
                strip_cr(all[i as int])
            } else {
                all[i as int]
            });
            assert(chars@ == all[i as int]);
            if i < n - 1 && chars@.len() > 0 && chars@.last() == '\r' {
                assert(line@ =~= all[i as int].drop_last());
            }
            assert(line@ == ls[i as int]);
        }
        out.push(line);
        i += 1;
    }
    assert(out@.map_values(|x: String| x@) =~= lines_of(s@));
    out
}

/// How a line differs between the two texts.
#[derive(Clone, Copy, Debug, PartialEq, Eq, Structural)]
pub enum ChangeKind {
    /// Both texts have the line, with different content.
    Changed,
    /// Only the left text has the line.
    Removed,
    /// Only the right text has the line.
    Added,
}

/// One differing line: its number (from 1), how it differs, and its
/// content on each side that has it.
#[derive(Clone, Debug)]
pub struct LineChange {
    pub line: usize,
    pub kind: ChangeKind,
    pub before: Option<String>,
    pub after: Option<String>,
}

/// The comparison of two texts line by line, position against position.
#[derive(Clone, Debug)]
pub struct LineDiff {
    pub left: String,
    pub right: String,
    pub equal: bool,
    pub added: usize,
    pub removed: usize,
    pub changed: usize,
    pub changes: Vec<LineChange>,
}

/// A differing line as plain values.
pub type ChangeView = (int, ChangeKind, Option<Seq<char>>, Option<Seq<char>>);

/// A differing line as plain values.
pub open spec fn change_view(c: LineChange) -> ChangeView {
    (c.line as int, c.kind, opt_text(c.before), opt_text(c.after))
}

/// How position `i` differs, if it does.
pub open spec fn change_at(left: Seq<Seq<char>>, right: Seq<Seq<char>>, i: int) -> Option<ChangeView> {
    if i < left.len() && i < right.len() {
        if left[i] == right[i] {
            None
        } else {
            Some((i + 1, ChangeKind::Changed, Some(left[i]), Some(right[i])))
        }
    } else if i < left.len() {
        Some((i + 1, ChangeKind::Removed, Some(left[i]), None))
    } else if i < right.len() {
        Some((i + 1, ChangeKind::Added, None, Some(right[i])))
    } else {
        None
    }
}

/// The differing positions below `n`, in order.
pub open spec fn changes_upto(left: Seq<Seq<char>>, right: Seq<Seq<char>>, n: int) -> Seq<ChangeView>
    decreases n,
{
    if n <= 0 {
        Seq::empty()
    } else {
        let rest = changes_upto(left, right, n - 1);
        match change_at(left, right, n - 1) {
            Some(c) => rest.push(c),
            None => rest,
        }
    }
}

/// How many of `changes` are of `kind`.
pub open spec fn count_kind(changes: Seq<ChangeView>, kind: ChangeKind) -> int
    decreases changes.len(),
{
    if changes.len() == 0 {
        0
    } else {
        count_kind(changes.drop_last(), kind) + if changes.last().1 == kind {
            1int
        } else {
            0
        }
    }
}

/// The larger of two lengths.
pub open spec fn longer(a: int, b: int) -> int {
    if a < b {
        b
    } else {
        a
    }
}

/// The line-by-line comparison of `left` (labelled `old_label`) and
/// `right` (labelled `new_label`): every position up to the longer text's
/// length where the lines differ or only one text has a line, with the
/// number of changed, removed and added lines; equal when there is none.
pub open spec fn diff_matches(d: LineDiff, old_label: Seq<char>, new_label: Seq<char>, left: Seq<char>, right: Seq<char>) -> bool {
    let l = lines_of(left);
    let r = lines_of(right);
    let changes = changes_upto(l, r, longer(l.len() as int, r.len() as int));
    &&& d.left@ == old_label
    &&& d.right@ == new_label
    &&& d.changes@.map_values(|c: LineChange| change_view(c)) == changes
    &&& d.equal == (changes.len() == 0)
    &&& d.added == count_kind(changes, ChangeKind::Added)
    &&& d.removed == count_kind(changes, ChangeKind::Removed)
    &&& d.changed == count_kind(changes, ChangeKind::Changed)
}

proof fn lemma_count_bound(changes: Seq<ChangeView>, kind: ChangeKind)
    ensures
        0 <= count_kind(changes, kind) <= changes.len(),
    decreases changes.len(),
{
    if changes.len() > 0 {
        lemma_count_bound(changes.drop_last(), kind);
    }
}

proof fn lemma_count_push(changes: Seq<ChangeView>, c: ChangeView, kind: ChangeKind)
    ensures
        count_kind(changes.push(c), kind) == count_kind(changes, kind) + if c.1 == kind {
            1int
        } else {
            0
        },
{
    assert(changes.push(c).drop_last() =~= changes);
}

proof fn lemma_changes_len(left: Seq<Seq<char>>, right: Seq<Seq<char>>, n: int)
    ensures
        changes_upto(left, right, n).len() <= if n < 0 { 0 } else { n },
    decreases n,
{
    if n > 0 {
        lemma_changes_len(left, right, n - 1);
    }
}

proof fn lemma_changes_none(left: Seq<Seq<char>>, right: Seq<Seq<char>>, n: int)
    ensures
        changes_upto(left, right, n).len() == 0 <==> forall|i: int|
            0 <= i < n ==> #[trigger] change_at(left, right, i) is None,
    decreases n,
{
    if n > 0 {
        lemma_changes_none(left, right, n - 1);
        lemma_changes_len(left, right, n - 1);
        if changes_upto(left, right, n).len() == 0 {
            assert forall|i: int| 0 <= i < n implies #[trigger] change_at(left, right, i) is None by {
                if i < n - 1 {
                    assert(changes_upto(left, right, n - 1).len() == 0);
                }
            }
        }
    }
}

proof fn lemma_count_total(changes: Seq<ChangeView>)
    ensures
        count_kind(changes, ChangeKind::Added) + count_kind(changes, ChangeKind::Removed)
            + count_kind(changes, ChangeKind::Changed) == changes.len(),
    decreases changes.len(),
{
    if changes.len() > 0 {
        lemma_count_total(changes.drop_last());
    }
}

/// A comparison reports the two texts equal exactly when they have the
/// same lines, and its counts of added, removed and changed lines add up
/// to the number of differing lines it lists.
pub proof fn law_diff_equal_iff_same_lines(
    d: LineDiff,
    old_label: Seq<char>,
    new_label: Seq<char>,
    left: Seq<char>,
    right: Seq<char>,
)
    requires
        diff_matches(d, old_label, new_label, left, right),
    ensures
        d.equal <==> lines_of(left) == lines_of(right),
        d.added + d.removed + d.changed == d.changes@.len(),
{
    let l = lines_of(left);
    let r = lines_of(right);
    let n = longer(l.len() as int, r.len() as int);
    let changes = changes_upto(l, r, n);
    lemma_changes_none(l, r, n);
    lemma_count_total(changes);
    assert(d.changes@.map_values(|c: LineChange| change_view(c)).len() == d.changes@.len());
    if l == r {
        assert forall|i: int| 0 <= i < n implies #[trigger] change_at(l, r, i) is None by {}
    }
    if changes.len() == 0 {
        if l.len() < r.len() {
            assert(change_at(l, r, l.len() as int) is None);
        } else if r.len() < l.len() {
            assert(change_at(l, r, r.len() as int) is None);
        }
        assert forall|i: int| 0 <= i < l.len() implies l[i] == r[i] by {
            assert(change_at(l, r, i) is None);
        }
        assert(l =~= r);
    }
}

/// Position `i` differs: one text has no line there, or the two lines
/// there differ.
pub open spec fn lines_differ(left: Seq<Seq<char>>, right: Seq<Seq<char>>, i: int) -> bool {
    i >= left.len() || i >= right.len() || left[i] != right[i]
}

/// Every listed change is what its position holds, and positions come in
/// increasing order.
proof fn lemma_changes_sound(left: Seq<Seq<char>>, right: Seq<Seq<char>>, n: int)
    ensures
        forall|j: int|
            0 <= j < changes_upto(left, right, n).len() ==> 1 <= (#[trigger] changes_upto(left, right, n)[j]).0
                <= n && change_at(left, right, changes_upto(left, right, n)[j].0 - 1) == Some(
                changes_upto(left, right, n)[j],
            ),
        forall|i: int|
            0 <= i < n && #[trigger] change_at(left, right, i) is Some ==> exists|j: int|
                0 <= j < changes_upto(left, right, n).len() && changes_upto(left, right, n)[j].0 == i + 1,
    decreases n,
{
    if n > 0 {
        lemma_changes_sound(left, right, n - 1);
        let prev = changes_upto(left, right, n - 1);
        let cur = changes_upto(left, right, n);
        assert forall|i: int| 0 <= i < n && #[trigger] change_at(left, right, i) is Some implies exists|j: int|
            0 <= j < cur.len() && cur[j].0 == i + 1 by {
            if i < n - 1 {
                let j = choose|j: int| 0 <= j < prev.len() && prev[j].0 == i + 1;
                assert(cur[j] == prev[j]);
            } else {
                assert(cur[prev.len() as int].0 == i + 1);
            }
        }
        assert forall|j: int| 0 <= j < cur.len() implies 1 <= (#[trigger] cur[j]).0 <= n && change_at(
            left,
            right,
            cur[j].0 - 1,
        ) == Some(cur[j]) by {
            if j < prev.len() {
                assert(cur[j] == prev[j]);
            }
        }
    }
}

/// Each reported change carries the left text's line at its position as
/// `before` and the right text's as `after`, `None` where a text has no
/// such line; the two differ, and the kind says which texts have the line.
/// Every position up to the longer text's length where the lines differ,
/// or only one text has a line, is reported.
pub proof fn law_diff_changes_carry_both_sides(
    d: LineDiff,
    old_label: Seq<char>,
    new_label: Seq<char>,
    left: Seq<char>,
    right: Seq<char>,
)
    requires
        diff_matches(d, old_label, new_label, left, right),
    ensures
        forall|j: int|
            0 <= j < d.changes@.len() ==> {
                let c = #[trigger] d.changes@[j];
                let k = c.line as int - 1;
                let l = lines_of(left);
                let r = lines_of(right);
                &&& 0 <= k < longer(l.len() as int, r.len() as int)
                &&& opt_text(c.before) == (if k < l.len() {
                    Some(l[k])
                } else {
                    None
                })
                &&& opt_text(c.after) == (if k < r.len() {
                    Some(r[k])
                } else {
                    None
                })
                &&& opt_text(c.before) != opt_text(c.after)
                &&& (c.kind == ChangeKind::Changed <==> (k < l.len() && k < r.len()))
                &&& (c.kind == ChangeKind::Removed <==> (k < l.len() && k >= r.len()))
                &&& (c.kind == ChangeKind::Added <==> (k >= l.len() && k < r.len()))
            },
        forall|i: int|
            0 <= i < longer(lines_of(left).len() as int, lines_of(right).len() as int)
                && #[trigger] lines_differ(lines_of(left), lines_of(right), i) ==> exists|j: int|
                0 <= j < d.changes@.len() && (#[trigger] d.changes@[j]).line == i + 1,
{
    let l = lines_of(left);
    let r = lines_of(right);
    let n = longer(l.len() as int, r.len() as int);
    let changes = changes_upto(l, r, n);
    lemma_changes_sound(l, r, n);
    let views = d.changes@.map_values(|c: LineChange| change_view(c));
    assert(views.len() == d.changes@.len());
    assert forall|j: int| 0 <= j < d.changes@.len() implies change_view(#[trigger] d.changes@[j]) == changes[j] by {
        assert(views[j] == change_view(d.changes@[j]));
    }
    assert forall|i: int|
        0 <= i < longer(lines_of(left).len() as int, lines_of(right).len() as int)
            && #[trigger] lines_differ(lines_of(left), lines_of(right), i) implies exists|j: int|
        0 <= j < d.changes@.len() && (#[trigger] d.changes@[j]).line == i + 1 by {
        assert(change_at(l, r, i) is Some);
        let j = choose|j: int| 0 <= j < changes.len() && changes[j].0 == i + 1;
        assert(change_view(d.changes@[j]) == changes[j]);
    }
}

proof fn lemma_count_added_removed(left: Seq<Seq<char>>, right: Seq<Seq<char>>, n: int)
    requires
        0 <= n,
    ensures
        count_kind(changes_upto(left, right, n), ChangeKind::Added) == if n <= left.len() {
            0
        } else if n <= right.len() {
            n - left.len()
        } else if right.len() <= left.len() {
            0
        } else {
            right.len() - left.len()
        },
        count_kind(changes_upto(left, right, n), ChangeKind::Removed) == if n <= right.len() {
            0
        } else if n <= left.len() {
            n - right.len()
        } else if left.len() <= right.len() {
            0
        } else {
            left.len() - right.len()
        },
    decreases n,
{
    if n > 0 {
        lemma_count_added_removed(left, right, n - 1);
        let prev = changes_upto(left, right, n - 1);
        match change_at(left, right, n - 1) {
            Some(c) => {
                lemma_count_push(prev, c, ChangeKind::Added);
                lemma_count_push(prev, c, ChangeKind::Removed);
            },
            None => {},
        }
    }
}

/// A comparison counts as added the lines that only the right text has
/// and as removed those that only the left has: the added count is how
/// many more lines the right text has, the removed count how many more the
/// left has.
pub proof fn law_diff_counts_follow_the_lengths(
    d: LineDiff,
    old_label: Seq<char>,
    new_label: Seq<char>,
    left: Seq<char>,
    right: Seq<char>,
)
    requires
        diff_matches(d, old_label, new_label, left, right),
    ensures
        d.added == if lines_of(right).len() > lines_of(left).len() {
            lines_of(right).len() - lines_of(left).len()
        } else {
            0
        },
        d.removed == if lines_of(left).len() > lines_of(right).len() {
            lines_of(left).len() - lines_of(right).len()
        } else {
            0
        },
{
    let l = lines_of(left);
    let r = lines_of(right);
    lemma_count_added_removed(l, r, longer(l.len() as int, r.len() as int));
}

/// The line-by-line comparison of two texts.
pub fn generate_line_diff(old_label: &str, new_label: &str, left: &str, right: &str) -> (r: LineDiff)
    ensures
        diff_matches(r, old_label@, new_label@, left@, right@),
{
    let left_lines = text_lines(left);
    let right_lines = text_lines(right);
    let ghost l = lines_of(left@);
    let ghost rl = lines_of(right@);
    assert(left_lines@.len() == l.len());
    assert(right_lines@.len() == rl.len());
    let max_len = if left_lines.len() < right_lines.len() {
        right_lines.len()
    } else {
        left_lines.len()
    };
    let mut changes: Vec<LineChange> = Vec::new();
    let mut added: usize = 0;
    let mut removed: usize = 0;
    let mut changed: usize = 0;
    let mut index: usize = 0;
    while index < max_len
        invariant
            index <= max_len,
            max_len == longer(l.len() as int, rl.len() as int),
            left_lines@.map_values(|x: String| x@) == l,
            right_lines@.map_values(|x: String| x@) == rl,
            changes@.map_values(|c: LineChange| change_view(c)) == changes_upto(l, rl, index as int),
            added == count_kind(changes_upto(l, rl, index as int), ChangeKind::Added),
            removed == count_kind(changes_upto(l, rl, index as int), ChangeKind::Removed),
            changed == count_kind(changes_upto(l, rl, index as int), ChangeKind::Changed),
        decreases max_len - index,
    {
        proof {
            lemma_changes_len(l, rl, index as int);
            lemma_count_bound(changes_upto(l, rl, index as int), ChangeKind::Added);
            lemma_count_bound(changes_upto(l, rl, index as int), ChangeKind::Removed);
            lemma_count_bound(changes_upto(l, rl, index as int), ChangeKind::Changed);
        }
        let ghost before = changes@;
        let ghost upto = changes_upto(l, rl, index as int);
        proof {
            match change_at(l, rl, index as int) {
                Some(cv) => {
                    lemma_count_push(upto, cv, ChangeKind::Added);
                    lemma_count_push(upto, cv, ChangeKind::Removed);
                    lemma_count_push(upto, cv, ChangeKind::Changed);
                },
                None => {},
            }
        }
        let has_left = index < left_lines.len();
        let has_right = index < right_lines.len();
        if has_left && has_right {
            assert(left_lines@[index as int]@ == l[index as int]);
            assert(right_lines@[index as int]@ == rl[index as int]);
            if !str_eq(left_lines[index].as_str(), right_lines[index].as_str()) {
                let c = LineChange {
                    line: index + 1,
                    kind: ChangeKind::Changed,
                    before: Some(left_lines[index].clone()),
                    after: Some(right_lines[index].clone()),
                };
                let ghost cv = change_view(c);
                changes.push(c);
                changed += 1;
                assert(changes@.map_values(|c: LineChange| change_view(c)) =~= before.map_values(
                    |c: LineChange| change_view(c),
                ).push(cv));
            }
        } else if has_left {
            assert(left_lines@[index as int]@ == l[index as int]);
            let c = LineChange {
                line: index + 1,
                kind: ChangeKind::Removed,
                before: Some(left_lines[index].clone()),
                after: None,
            };
            let ghost cv = change_view(c);
            changes.push(c);
            removed += 1;
            assert(changes@.map_values(|c: LineChange| change_view(c)) =~= before.map_values(
                |c: LineChange| change_view(c),
            ).push(cv));
        } else if has_right {
            assert(right_lines@[index as int]@ == rl[index as int]);
            let c = LineChange {
                line: index + 1,
                kind: ChangeKind::Added,
                before: None,
                after: Some(right_lines[index].clone()),
            };
            let ghost cv = change_view(c);
            changes.push(c);
            added += 1;
            assert(changes@.map_values(|c: LineChange| change_view(c)) =~= before.map_values(
                |c: LineChange| change_view(c),
            ).push(cv));
        }
        index += 1;
    }
    let equal = changes.len() == 0;
    LineDiff { left: owned(old_label), right: owned(new_label), equal, added, removed, changed, changes }
}

} // verus!
