//! Review requests: the prompt that asks for a review and the short hint
//! shown to the user, for each kind of review target.
use vstd::prelude::*;

use crate::text::{
    find_seq, lemma_replace_free, lemma_replace_past_start, lemma_replace_split, lemma_replace_whole,
    append, decimal, decimal_string, join_seq, replace, replace_seq, to_chars, trim, trim_seq,
};

verus! {

/// What a review looks at.
#[derive(Clone, Debug, PartialEq, Eq)]
pub enum ReviewTarget {
    UncommittedChanges,
    BaseBranch { branch: String },
    Commit { sha: String, title: Option<String> },
    Custom { instructions: String },
    Files { paths: Vec<String> },
}

/// A review request, with the hint the user chose, if any.
#[derive(Clone, Debug, PartialEq, Eq)]
pub struct ReviewRequest {
    pub target: ReviewTarget,
    pub user_facing_hint: Option<String>,
}

/// A review request with its prompt and hint worked out.
#[derive(Clone, Debug, PartialEq, Eq)]
pub struct ResolvedReviewRequest {
    pub target: ReviewTarget,
    pub prompt: String,
    pub user_facing_hint: String,
}

/// Why no prompt can be made for a target.
#[derive(Clone, Debug, PartialEq, Eq)]
pub enum ReviewPromptError {
    /// The custom instructions are empty once trimmed.
    EmptyCustomPrompt,
    /// No listed file path is non-empty once trimmed.
    NoFilePaths,
}

impl ReviewPromptError {
    /// The human-readable message of this error.
    pub fn message(&self) -> (r: String)
        ensures
            r@ == review_error_message(*self),
    {
        match self {
            ReviewPromptError::EmptyCustomPrompt => "Review prompt cannot be empty".to_owned(),
            ReviewPromptError::NoFilePaths => "Review file paths must contain at least one non-empty path".to_owned(),
        }
    }
}

/// The message of a prompt error.
pub open spec fn review_error_message(e: ReviewPromptError) -> Seq<char> {
    match e {
        ReviewPromptError::EmptyCustomPrompt => "Review prompt cannot be empty"@,
        ReviewPromptError::NoFilePaths => "Review file paths must contain at least one non-empty path"@,
    }
}

pub const UNCOMMITTED_PROMPT: &'static str = "Review the current code changes (staged, unstaged, and untracked files) and provide prioritized findings.";

pub const BASE_BRANCH_PROMPT_BACKUP: &'static str = "Review the code changes against the base branch '{branch}'. Start by finding the merge diff between the current branch and {branch}'s upstream e.g. (`git merge-base HEAD \"$(git rev-parse --abbrev-ref \"{branch}@{upstream}\")\"`), then run `git diff` against that SHA to see what changes we would merge into the {branch} branch. Provide prioritized, actionable findings.";

pub const BASE_BRANCH_PROMPT: &'static str = "Review the code changes against the base branch '{baseBranch}'. The merge base commit for this comparison is {mergeBaseSha}. Run `git diff {mergeBaseSha}` to inspect the changes relative to {baseBranch}. Provide prioritized, actionable findings.";

pub const COMMIT_PROMPT_WITH_TITLE: &'static str = "Review the code changes introduced by commit {sha} (\"{title}\"). Provide prioritized, actionable findings.";

pub const COMMIT_PROMPT: &'static str = "Review the code changes introduced by commit {sha}. Provide prioritized, actionable findings.";

pub const FILES_PROMPT_PREFIX: &'static str = "Review only the listed files and keep the scope strictly limited to them. Do not review unrelated files unless you explicitly call out why broader context is required.";

/// The listed paths, trimmed, without those that are empty once trimmed.
pub open spec fn clean_paths(paths: Seq<String>) -> Seq<Seq<char>>
    decreases paths.len(),
{
    if paths.len() == 0 {
        seq![]
    } else {
        let rest = clean_paths(paths.drop_last());
        let t = trim_seq(paths.last()@);
        if t.len() > 0 {
            rest.push(t)
        } else {
            rest
        }
    }
}

/// Each cleaned path as a list item.
pub open spec fn path_items(paths: Seq<Seq<char>>) -> Seq<Seq<char>> {
    paths.map_values(|p: Seq<char>| "- "@ + p)
}

/// The prompt of a file-scoped review.
pub open spec fn files_prompt(paths: Seq<Seq<char>>) -> Seq<char> {
    FILES_PROMPT_PREFIX@ + "\n\nTarget files:\n"@ + join_seq(path_items(paths), "\n"@)
}

/// The prompt for `target`; `merge_base` is the merge-base commit of a base
/// branch with `HEAD`, when one was found.
pub open spec fn spec_review_prompt(target: ReviewTarget, merge_base: Option<String>) -> Result<
    Seq<char>,
    ReviewPromptError,
> {
    match target {
        ReviewTarget::UncommittedChanges => Ok(UNCOMMITTED_PROMPT@),
        ReviewTarget::BaseBranch { branch } => match merge_base {
            Some(commit) => Ok(
                replace_seq(
                    replace_seq(BASE_BRANCH_PROMPT@, "{baseBranch}"@, branch@),
                    "{mergeBaseSha}"@,
                    commit@,
                ),
            ),
            None => Ok(replace_seq(BASE_BRANCH_PROMPT_BACKUP@, "{branch}"@, branch@)),
        },
        ReviewTarget::Commit { sha, title } => match title {
            Some(t) => Ok(
                replace_seq(replace_seq(COMMIT_PROMPT_WITH_TITLE@, "{sha}"@, sha@), "{title}"@, t@),
            ),
            None => Ok(replace_seq(COMMIT_PROMPT@, "{sha}"@, sha@)),
        },
        ReviewTarget::Custom { instructions } => {
            let p = trim_seq(instructions@);
            if p.len() == 0 {
                Err(ReviewPromptError::EmptyCustomPrompt)
            } else {
                Ok(p)
            }
        },
        ReviewTarget::Files { paths } => {
            let cleaned = clean_paths(paths@);
            if cleaned.len() == 0 {
                Err(ReviewPromptError::NoFilePaths)
            } else {
                Ok(files_prompt(cleaned))
            }
        },
    }
}

/// The short hint shown to the user for `target`.
pub open spec fn spec_user_facing_hint(target: ReviewTarget) -> Seq<char> {
    match target {
        ReviewTarget::UncommittedChanges => "current changes"@,
        ReviewTarget::BaseBranch { branch } => "changes against '"@ + branch@ + "'"@,
        ReviewTarget::Commit { sha, title } => {
            let short = if sha@.len() <= 7 {
                sha@
            } else {
                sha@.take(7)
            };
            match title {
                Some(t) => "commit "@ + short + ": "@ + t@,
                None => "commit "@ + short,
            }
        },
        ReviewTarget::Custom { instructions } => trim_seq(instructions@),
        ReviewTarget::Files { paths } => {
            let cleaned = clean_paths(paths@);
            if cleaned.len() == 0 {
                "files"@
            } else if cleaned.len() == 1 {
                "file "@ + cleaned[0]
            } else {
                decimal(cleaned.len()) + " files"@
            }
        },
    }
}

/// The trimmed, non-empty paths of `paths`.
fn cleaned_paths(paths: &Vec<String>) -> (r: Vec<String>)
    ensures
        r@.len() == clean_paths(paths@).len(),
        forall|i: int| 0 <= i < r@.len() ==> #[trigger] r@[i]@ == clean_paths(paths@)[i],
{
    let mut out: Vec<String> = Vec::new();
    let mut i: usize = 0;
    while i < paths.len()
        invariant
            i <= paths@.len(),
            out@.len() == clean_paths(paths@.take(i as int)).len(),
            forall|k: int|
                0 <= k < out@.len() ==> #[trigger] out@[k]@ == clean_paths(paths@.take(i as int))[k],
        decreases paths@.len() - i,
    {
        assert(paths@.take(i + 1).drop_last() == paths@.take(i as int));
        let t = trim(paths[i].as_str());
        if to_chars(t.as_str()).len() > 0 {
            out.push(t);
        }
        i += 1;
    }
    assert(paths@.take(i as int) == paths@);
    out
}

/// The prompt of a file-scoped review over already cleaned paths.
fn files_prompt_string(cleaned: &Vec<String>) -> (r: String)
    requires
        cleaned@.len() > 0,
    ensures
        r@ == files_prompt(cleaned@.map_values(|s: String| s@)),
{
    let ghost views = cleaned@.map_values(|s: String| s@);
    let mut list = "- ".to_owned();
    list.append(cleaned[0].as_str());
    let mut i: usize = 1;
    assert(path_items(views).take(1).drop_last() == Seq::<Seq<char>>::empty());
    while i < cleaned.len()
        invariant
            1 <= i <= cleaned@.len(),
            views == cleaned@.map_values(|s: String| s@),
            list@ == join_seq(path_items(views).take(i as int), "\n"@),
        decreases cleaned@.len() - i,
    {
        let ghost before = list@;
        proof {
            reveal_strlit("\n");
            reveal_strlit("- ");
            reveal_strlit("\n- ");
            assert(path_items(views).take(i + 1).drop_last() == path_items(views).take(i as int));
            assert(path_items(views).take(i + 1).last() == "- "@ + cleaned@[i as int]@);
            assert("\n- "@ == "\n"@ + "- "@);
        }
        list.append("\n- ");
        list.append(cleaned[i].as_str());
        assert(list@ == before + "\n"@ + ("- "@ + cleaned@[i as int]@));
        i += 1;
    }
    assert(path_items(views).take(i as int) == path_items(views));
    let mut r = FILES_PROMPT_PREFIX.to_owned();
    r.append("\n\nTarget files:\n");
    r.append(list.as_str());
    r
}

/// The prompt for `target`. For a base-branch review, `merge_base` is the
/// merge-base commit of the branch with `HEAD` when one was found; the
/// prompt then names it, else it says how to find it.
/// Custom instructions are trimmed and must not be empty; file paths are
/// trimmed, empty ones dropped, and at least one must remain.
pub fn review_prompt(target: &ReviewTarget, merge_base: Option<String>) -> (r: Result<
    String,
    ReviewPromptError,
>)
    ensures
        match r {
            Ok(p) => spec_review_prompt(*target, merge_base) == Ok::<Seq<char>, ReviewPromptError>(
                p@,
            ),
            Err(e) => spec_review_prompt(*target, merge_base) == Err::<Seq<char>, ReviewPromptError>(
                e,
            ),
        },
{
    proof {
        reveal_strlit("{baseBranch}");
        reveal_strlit("{mergeBaseSha}");
        reveal_strlit("{branch}");
        reveal_strlit("{sha}");
        reveal_strlit("{title}");
    }
    match target {
        ReviewTarget::UncommittedChanges => Ok(UNCOMMITTED_PROMPT.to_owned()),
        ReviewTarget::BaseBranch { branch } => match merge_base {
            Some(commit) => {
                let first = replace(BASE_BRANCH_PROMPT, "{baseBranch}", branch.as_str());
                Ok(replace(first.as_str(), "{mergeBaseSha}", commit.as_str()))
            },
            None => Ok(replace(BASE_BRANCH_PROMPT_BACKUP, "{branch}", branch.as_str())),
        },
        ReviewTarget::Commit { sha, title } => match title {
            Some(t) => {
                let first = replace(COMMIT_PROMPT_WITH_TITLE, "{sha}", sha.as_str());
                Ok(replace(first.as_str(), "{title}", t.as_str()))
            },
            None => Ok(replace(COMMIT_PROMPT, "{sha}", sha.as_str())),
        },
        ReviewTarget::Custom { instructions } => {
            let prompt = trim(instructions.as_str());
            if to_chars(prompt.as_str()).len() == 0 {
                Err(ReviewPromptError::EmptyCustomPrompt)
            } else {
                Ok(prompt)
            }
        },
        ReviewTarget::Files { paths } => {
            let cleaned = cleaned_paths(paths);
            if cleaned.len() == 0 {
                Err(ReviewPromptError::NoFilePaths)
            } else {
                assert(cleaned@.map_values(|s: String| s@) == clean_paths(paths@));
                Ok(files_prompt_string(&cleaned))
            }
        },
    }
}

/// The short hint shown to the user: the first seven characters of a
/// commit's id, the trimmed custom instructions, or the number of files.
pub fn user_facing_hint(target: &ReviewTarget) -> (r: String)
    ensures
        r@ == spec_user_facing_hint(*target),
{
    match target {
        ReviewTarget::UncommittedChanges => "current changes".to_owned(),
        ReviewTarget::BaseBranch { branch } => {
            let mut r = "changes against '".to_owned();
            r.append(branch.as_str());
            r.append("'");
            r
        },
        ReviewTarget::Commit { sha, title } => {
            let chars = to_chars(sha.as_str());
            let n = if chars.len() <= 7 {
                chars.len()
            } else {
                7
            };
            let short = crate::text::from_chars_range(chars.as_slice(), 0, n);
            assert(sha@.len() <= 7 ==> sha@.subrange(0, n as int) == sha@);
            let mut r = "commit ".to_owned();
            r.append(short.as_str());
            match title {
                Some(t) => {
                    r.append(": ");
                    r.append(t.as_str());
                },
                None => {},
            }
            r
        },
        ReviewTarget::Custom { instructions } => trim(instructions.as_str()),
        ReviewTarget::Files { paths } => {
            let cleaned = cleaned_paths(paths);
            if cleaned.len() == 0 {
                "files".to_owned()
            } else if cleaned.len() == 1 {
                let mut r = "file ".to_owned();
                r.append(cleaned[0].as_str());
                r
            } else {
                let mut r = decimal_string(cleaned.len() as u64);
                r.append(" files");
                r
            }
        },
    }
}

/// Works out the prompt and hint of a request; a hint the user chose is
/// kept, else the target's own hint is used.
pub fn resolve_review_request(request: ReviewRequest, merge_base: Option<String>) -> (r: Result<
    ResolvedReviewRequest,
    ReviewPromptError,
>)
    ensures
        match r {
            Ok(resolved) => {
                &&& resolved.target == request.target
                &&& spec_review_prompt(request.target, merge_base) == Ok::<
                    Seq<char>,
                    ReviewPromptError,
                >(resolved.prompt@)
                &&& resolved.user_facing_hint@ == match request.user_facing_hint {
                    Some(h) => h@,
                    None => spec_user_facing_hint(request.target),
                }
            },
            Err(e) => spec_review_prompt(request.target, merge_base) == Err::<
                Seq<char>,
                ReviewPromptError,
            >(e),
        },
{
    let ReviewRequest { target, user_facing_hint: chosen } = request;
    let prompt = review_prompt(&target, merge_base)?;
    let hint = match chosen {
        Some(h) => h,
        None => user_facing_hint(&target),
    };
    Ok(ResolvedReviewRequest { target, prompt, user_facing_hint: hint })
}

impl ResolvedReviewRequest {
    /// The request that carries this target and the resolved hint.
    pub fn into_request(self) -> (r: ReviewRequest)
        ensures
            r.target == self.target,
            r.user_facing_hint matches Some(h) && h@ == self.user_facing_hint@,
    {
        ReviewRequest { target: self.target, user_facing_hint: Some(self.user_facing_hint) }
    }
}

/// The hint of a file-scoped review counts its usable paths: `files` for
/// none, `file <path>` for one, `<n> files` for more.
pub proof fn law_files_hint_counts_paths(paths: Vec<String>)
    ensures
        clean_paths(paths@).len() == 0 ==> spec_user_facing_hint(ReviewTarget::Files { paths })
            == "files"@,
        clean_paths(paths@).len() == 1 ==> spec_user_facing_hint(ReviewTarget::Files { paths })
            == "file "@ + clean_paths(paths@)[0],
        clean_paths(paths@).len() >= 2 ==> spec_user_facing_hint(ReviewTarget::Files { paths })
            == decimal(clean_paths(paths@).len()) + " files"@,
{
}

/// A file-scoped review is refused exactly when no path is left once the
/// paths are trimmed and the empty ones dropped, and an accepted one lists
/// every remaining path in order.
pub proof fn law_files_prompt_lists_clean_paths(paths: Vec<String>)
    ensures
        spec_review_prompt(ReviewTarget::Files { paths }, None) is Err <==> clean_paths(paths@).len()
            == 0,
        clean_paths(paths@).len() > 0 ==> spec_review_prompt(ReviewTarget::Files { paths }, None)
            == Ok::<Seq<char>, ReviewPromptError>(files_prompt(clean_paths(paths@))),
{
}

/// The base-branch prompt, written out: it names `branch` as the base
/// branch and `commit` as the merge base to diff against.
pub open spec fn base_branch_prompt_text(branch: Seq<char>, commit: Seq<char>) -> Seq<char> {
    "Review the code changes against the base branch '"@ + branch
        + "'. The merge base commit for this comparison is "@ + commit + ". Run `git diff "@ + commit
        + "` to inspect the changes relative to "@ + branch + ". Provide prioritized, actionable findings."@
}

spec fn piece1() -> Seq<char> {
    "Review the code changes against the base branch '"@
}

spec fn piece2() -> Seq<char> {
    "'. The merge base commit for this comparison is "@
}

spec fn piece3() -> Seq<char> {
    ". Run `git diff "@
}

spec fn piece4() -> Seq<char> {
    "` to inspect the changes relative to "@
}

spec fn piece5() -> Seq<char> {
    ". Provide prioritized, actionable findings."@
}

spec fn branch_slot() -> Seq<char> {
    "{baseBranch}"@
}

spec fn commit_slot() -> Seq<char> {
    "{mergeBaseSha}"@
}

/// The base-branch prompt with its two slots filled by `b` and `c`.
spec fn filled(b: Seq<char>, c: Seq<char>) -> Seq<char> {
    piece1() + (b + (piece2() + (c + (piece3() + (c + (piece4() + (b + piece5())))))))
}

/// The template is the pieces around the slots.
proof fn lemma_template_pieces()
    ensures
        BASE_BRANCH_PROMPT@ == filled(branch_slot(), commit_slot()),
{
    reveal_strlit("Review the code changes against the base branch '");
    reveal_strlit("{baseBranch}");
    reveal_strlit("'. The merge base commit for this comparison is ");
    reveal_strlit("{mergeBaseSha}");
    reveal_strlit(". Run `git diff ");
    reveal_strlit("` to inspect the changes relative to ");
    reveal_strlit(". Provide prioritized, actionable findings.");
    reveal_strlit("Review the code changes against the base branch '{baseBranch}'. The merge base commit for this comparison is {mergeBaseSha}. Run `git diff {mergeBaseSha}` to inspect the changes relative to {baseBranch}. Provide prioritized, actionable findings.");
    assert(BASE_BRANCH_PROMPT@ =~= filled(branch_slot(), commit_slot()));
}

/// The characters at the joints of the template, and the slots' shape.
proof fn lemma_piece_facts()
    ensures
        piece1().len() > 0 && piece1().last() == '\'',
        piece2().len() > 0 && piece2()[0] == '\'' && piece2().last() == ' ',
        piece3().len() > 0 && piece3()[0] == '.' && piece3().last() == ' ',
        piece4().len() > 0 && piece4()[0] == '`' && piece4().last() == ' ',
        piece5().len() > 0 && piece5()[0] == '.',
        branch_slot().len() == 12 && branch_slot()[0] == '{' && branch_slot()[1] == 'b',
        commit_slot().len() == 14 && commit_slot()[0] == '{' && commit_slot()[1] == 'm',
        forall|i: int| 1 <= i < commit_slot().len() ==> commit_slot()[i] != '{',
        forall|i: int| 0 <= i < 12 ==> branch_slot()[i] != '\'' && branch_slot()[i] != ' '
            && branch_slot()[i] != '.' && branch_slot()[i] != '`',
        forall|i: int| 0 <= i < 14 ==> commit_slot()[i] != '\'' && commit_slot()[i] != ' '
            && commit_slot()[i] != '.' && commit_slot()[i] != '`',
{
    reveal_strlit("Review the code changes against the base branch '");
    reveal_strlit("{baseBranch}");
    reveal_strlit("'. The merge base commit for this comparison is ");
    reveal_strlit("{mergeBaseSha}");
    reveal_strlit(". Run `git diff ");
    reveal_strlit("` to inspect the changes relative to ");
    reveal_strlit(". Provide prioritized, actionable findings.");
}

/// The pieces hold no brace, so no slot is found in them.
proof fn lemma_pieces_plain(p: Seq<char>, r: Seq<char>)
    requires
        p.len() > 0,
        p[0] == '{',
    ensures
        replace_seq(piece1(), p, r) == piece1(),
        replace_seq(piece2(), p, r) == piece2(),
        replace_seq(piece3(), p, r) == piece3(),
        replace_seq(piece4(), p, r) == piece4(),
        replace_seq(piece5(), p, r) == piece5(),
{
    reveal_strlit("Review the code changes against the base branch '");
    reveal_strlit("'. The merge base commit for this comparison is ");
    reveal_strlit(". Run `git diff ");
    reveal_strlit("` to inspect the changes relative to ");
    reveal_strlit(". Provide prioritized, actionable findings.");
    lemma_replace_free(piece1(), p, r);
    lemma_replace_free(piece2(), p, r);
    lemma_replace_free(piece3(), p, r);
    lemma_replace_free(piece4(), p, r);
    lemma_replace_free(piece5(), p, r);
}

/// Substituting `p` in the filled template works slot by slot, when no
/// joint char is in `p` and each filling starts and ends away from it.
proof fn lemma_fill_split(b: Seq<char>, c: Seq<char>, p: Seq<char>, r: Seq<char>)
    requires
        p.len() > 0,
        !p.contains('\''),
        !p.contains(' '),
        !p.contains('.'),
        !p.contains('`'),
    ensures
        replace_seq(filled(b, c), p, r) == replace_seq(piece1(), p, r) + (replace_seq(b, p, r) + (
        replace_seq(piece2(), p, r) + (replace_seq(c, p, r) + (replace_seq(piece3(), p, r) + (
        replace_seq(c, p, r) + (replace_seq(piece4(), p, r) + (replace_seq(b, p, r) + replace_seq(
            piece5(),
            p,
            r,
        )))))))),
{
    lemma_piece_facts();
    let t8 = b + piece5();
    let t7 = piece4() + t8;
    let t6 = c + t7;
    let t5 = piece3() + t6;
    let t4 = c + t5;
    let t3 = piece2() + t4;
    let t2 = b + t3;
    assert((piece5())[0] == t8[b.len() as int] || b.len() > 0);
    assert(t3[0] == '\'');
    assert(t5[0] == '.');
    assert(t7[0] == '`');
    assert(t8.len() > 0);
    lemma_replace_split(b, piece5(), p, r);
    lemma_replace_split(piece4(), t8, p, r);
    lemma_replace_split(c, t7, p, r);
    lemma_replace_split(piece3(), t6, p, r);
    lemma_replace_split(c, t5, p, r);
    lemma_replace_split(piece2(), t4, p, r);
    lemma_replace_split(b, t3, p, r);
    lemma_replace_split(piece1(), t2, p, r);
}

/// The first substitution puts `b` into the branch slots.
proof fn lemma_first_substitution(b: Seq<char>)
    ensures
        replace_seq(filled(branch_slot(), commit_slot()), branch_slot(), b) == filled(b, commit_slot()),
{
    let bb = branch_slot();
    let mb = commit_slot();
    lemma_piece_facts();
    lemma_pieces_plain(bb, b);
    lemma_replace_whole(bb, b);
    assert(!crate::text::occurs_at(mb, bb, 0)) by {
        assert(mb.subrange(0, bb.len() as int)[1] != bb[1]);
    }
    lemma_replace_past_start(mb, bb, b);
    lemma_replace_free(mb.skip(1), bb, b);
    assert(seq![mb[0]] + mb.skip(1) =~= mb);
    lemma_fill_split(bb, mb, bb, b);
}

/// The second substitution puts `c` into the commit slots, when `b` holds
/// no commit slot.
proof fn lemma_second_substitution(b: Seq<char>, c: Seq<char>)
    requires
        find_seq(b, commit_slot()) is None,
    ensures
        replace_seq(filled(b, commit_slot()), commit_slot(), c) == filled(b, c),
{
    let mb = commit_slot();
    lemma_piece_facts();
    lemma_pieces_plain(mb, c);
    lemma_replace_whole(mb, c);
    lemma_fill_split(b, mb, mb, c);
}

/// For a base branch with a merge-base commit, the prompt names the
/// branch as the base branch and the commit as what to diff against, each
/// where it belongs (a branch name that itself holds `{mergeBaseSha}` is
/// left out: the second substitution would reach into it).
pub proof fn law_base_branch_prompt_names_branch_and_commit(branch: String, commit: String)
    requires
        find_seq(branch@, "{mergeBaseSha}"@) is None,
    ensures
        spec_review_prompt(ReviewTarget::BaseBranch { branch }, Some(commit)) == Ok::<
            Seq<char>,
            ReviewPromptError,
        >(base_branch_prompt_text(branch@, commit@)),
{
    let b = branch@;
    let c = commit@;
    lemma_template_pieces();
    lemma_first_substitution(b);
    lemma_second_substitution(b, c);
    assert(filled(b, c) =~= base_branch_prompt_text(b, c));
}

/// The commit prompt, written out: it names the commit and, when given,
/// its title.
pub open spec fn commit_prompt_text(sha: Seq<char>, title: Option<Seq<char>>) -> Seq<char> {
    match title {
        Some(t) => "Review the code changes introduced by commit "@ + sha + " (\""@ + t
            + "\"). Provide prioritized, actionable findings."@,
        None => "Review the code changes introduced by commit "@ + sha
            + ". Provide prioritized, actionable findings."@,
    }
}

spec fn commit_piece1() -> Seq<char> {
    "Review the code changes introduced by commit "@
}

spec fn commit_piece2() -> Seq<char> {
    " (\""@
}

spec fn commit_piece3() -> Seq<char> {
    "\"). Provide prioritized, actionable findings."@
}

spec fn sha_slot() -> Seq<char> {
    "{sha}"@
}

spec fn title_slot() -> Seq<char> {
    "{title}"@
}

/// The commit template with a title, its slots filled by `s` and `t`.
spec fn commit_filled(s: Seq<char>, t: Seq<char>) -> Seq<char> {
    commit_piece1() + (s + (commit_piece2() + (t + commit_piece3())))
}

/// The commit template without a title, its slot filled by `s`.
spec fn commit_filled_plain(s: Seq<char>) -> Seq<char> {
    commit_piece1() + (s + piece5())
}

proof fn lemma_commit_pieces()
    ensures
        COMMIT_PROMPT_WITH_TITLE@ == commit_filled(sha_slot(), title_slot()),
        COMMIT_PROMPT@ == commit_filled_plain(sha_slot()),
        commit_piece1().len() > 0 && commit_piece1().last() == ' ',
        commit_piece2().len() > 0 && commit_piece2()[0] == ' ' && commit_piece2().last() == '"',
        commit_piece3().len() > 0 && commit_piece3()[0] == '"',
        piece5().len() > 0 && piece5()[0] == '.',
        sha_slot().len() == 5 && sha_slot()[0] == '{' && sha_slot()[1] == 's',
        title_slot().len() == 7 && title_slot()[0] == '{' && title_slot()[1] == 't',
        forall|i: int| 1 <= i < title_slot().len() ==> title_slot()[i] != '{',
        forall|i: int| 0 <= i < 5 ==> sha_slot()[i] != ' ' && sha_slot()[i] != '"' && sha_slot()[i] != '.',
        forall|i: int| 0 <= i < 7 ==> title_slot()[i] != ' ' && title_slot()[i] != '"' && title_slot()[i] != '.',
        forall|i: int| 0 <= i < commit_piece1().len() ==> commit_piece1()[i] != '{',
        forall|i: int| 0 <= i < commit_piece2().len() ==> commit_piece2()[i] != '{',
        forall|i: int| 0 <= i < commit_piece3().len() ==> commit_piece3()[i] != '{',
        forall|i: int| 0 <= i < piece5().len() ==> piece5()[i] != '{',
{
    reveal_strlit("Review the code changes introduced by commit ");
    reveal_strlit(" (\"");
    reveal_strlit("\"). Provide prioritized, actionable findings.");
    reveal_strlit(". Provide prioritized, actionable findings.");
    reveal_strlit("{sha}");
    reveal_strlit("{title}");
    reveal_strlit("Review the code changes introduced by commit {sha} (\"{title}\"). Provide prioritized, actionable findings.");
    reveal_strlit("Review the code changes introduced by commit {sha}. Provide prioritized, actionable findings.");
    assert(COMMIT_PROMPT_WITH_TITLE@ =~= commit_filled(sha_slot(), title_slot()));
    assert(COMMIT_PROMPT@ =~= commit_filled_plain(sha_slot()));
}

/// Substituting `p` in the filled commit template works slot by slot.
proof fn lemma_commit_split(s: Seq<char>, t: Seq<char>, p: Seq<char>, r: Seq<char>)
    requires
        p.len() > 0,
        p[0] == '{',
        !p.contains(' '),
        !p.contains('"'),
        !p.contains('.'),
    ensures
        replace_seq(commit_filled(s, t), p, r) == commit_piece1() + (replace_seq(s, p, r) + (
        commit_piece2() + (replace_seq(t, p, r) + commit_piece3()))),
        replace_seq(commit_filled_plain(s), p, r) == commit_piece1() + (replace_seq(s, p, r) + piece5()),
{
    lemma_commit_pieces();
    lemma_replace_free(commit_piece1(), p, r);
    lemma_replace_free(commit_piece2(), p, r);
    lemma_replace_free(commit_piece3(), p, r);
    lemma_replace_free(piece5(), p, r);
    let a3 = t + commit_piece3();
    let a2 = commit_piece2() + a3;
    let a1 = s + a2;
    assert(a2[0] == ' ');
    lemma_replace_split(t, commit_piece3(), p, r);
    lemma_replace_split(commit_piece2(), a3, p, r);
    lemma_replace_split(s, a2, p, r);
    lemma_replace_split(commit_piece1(), a1, p, r);
    lemma_replace_split(s, piece5(), p, r);
    lemma_replace_split(commit_piece1(), s + piece5(), p, r);
}

/// The commit prompt names the commit and, when given, its title, each
/// where it belongs (a commit name that itself holds `{title}` is left
/// out: the second substitution would reach into it).
pub proof fn law_commit_prompt_names_commit_and_title(sha: String, title: Option<String>)
    requires
        find_seq(sha@, "{title}"@) is None,
    ensures
        spec_review_prompt(ReviewTarget::Commit { sha, title }, None) == Ok::<Seq<char>, ReviewPromptError>(
            commit_prompt_text(
                sha@,
                match title {
                    Some(t) => Some(t@),
                    None => None,
                },
            ),
        ),
{
    let s = sha@;
    let ss = sha_slot();
    let ts = title_slot();
    lemma_commit_pieces();
    lemma_replace_whole(ss, s);
    lemma_commit_split(ss, ts, ss, s);
    match title {
        Some(t) => {
            assert(!crate::text::occurs_at(ts, ss, 0)) by {
                assert(ts.subrange(0, ss.len() as int)[1] != ss[1]);
            }
            lemma_replace_past_start(ts, ss, s);
            lemma_replace_free(ts.skip(1), ss, s);
            assert(seq![ts[0]] + ts.skip(1) =~= ts);
            lemma_replace_whole(ts, t@);
            lemma_commit_split(s, ts, ts, t@);
            assert(commit_filled(s, t@) =~= commit_prompt_text(s, Some(t@)));
        },
        None => {
            assert(commit_filled_plain(s) =~= commit_prompt_text(s, None));
        },
    }
}

} // verus!
