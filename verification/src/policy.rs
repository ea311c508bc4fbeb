//! The engine's safety policy: which source updates and which WebSocket
//! domains it refuses.
use vstd::prelude::*;

use crate::errors::NeuroEngineError;
use crate::text::{contains_str, find_seq, lemma_find_from, occurs_at, str_eq};
use crate::types::{AdtUpdateSourceRequest, SafetyPolicy};

verus! {

/// `pattern` forbids `source`: it is non-empty and occurs in it.
pub open spec fn pattern_blocks(pattern: Seq<char>, source: Seq<char>) -> bool {
    pattern.len() > 0 && find_seq(source, pattern) is Some
}

/// The index of the first pattern in `patterns` that forbids `source`.
pub open spec fn first_blocking(patterns: Seq<String>, source: Seq<char>, from: int) -> Option<int>
    decreases patterns.len() - from,
{
    if from < 0 || from >= patterns.len() {
        None
    } else if pattern_blocks(patterns[from]@, source) {
        Some(from)
    } else {
        first_blocking(patterns, source, from + 1)
    }
}

/// Why `policy` refuses `request`, or `None` when it lets it through.
pub open spec fn update_refusal(policy: SafetyPolicy, request: AdtUpdateSourceRequest) -> Option<Seq<char>> {
    if policy.read_only {
        Some("updates are disabled by read_only safety policy"@)
    } else if policy.require_etag_for_updates && request.etag is None {
        Some("updates require an etag but request.etag was not provided"@)
    } else {
        match first_blocking(policy.blocked_source_patterns@, request.source@, 0) {
            Some(i) => Some(
                "source update blocked due to forbidden pattern `"@ + policy.blocked_source_patterns@[i]@
                    + "`"@,
            ),
            None => None,
        }
    }
}

/// `policy` lets messages for `domain` through: its list of allowed domains
/// is empty or names `domain`.
pub open spec fn domain_allowed(policy: SafetyPolicy, domain: Seq<char>) -> bool {
    policy.allowed_ws_domains@.len() == 0 || exists|i: int|
        0 <= i < policy.allowed_ws_domains@.len() && #[trigger] policy.allowed_ws_domains@[i]@
            == domain
}

/// Checks a source update against the safety policy: refused when the
/// policy is read-only, when it requires an entity tag the request lacks,
/// or when a non-empty blocked pattern occurs in the new source (the first
/// such pattern is named).
pub fn enforce_source_update_policy(
    safety: &SafetyPolicy,
    request: &AdtUpdateSourceRequest,
) -> (r: Result<(), NeuroEngineError>)
    ensures
        r is Ok <==> update_refusal(*safety, *request) is None,
        r matches Err(e) ==> (e matches NeuroEngineError::SafetyViolation(m) && Some(m@)
            == update_refusal(*safety, *request)),
{
    if safety.read_only {
        return Err(
            NeuroEngineError::SafetyViolation(
                "updates are disabled by read_only safety policy".to_owned(),
            ),
        );
    }
    if safety.require_etag_for_updates && request.etag.is_none() {
        return Err(
            NeuroEngineError::SafetyViolation(
                "updates require an etag but request.etag was not provided".to_owned(),
            ),
        );
    }
    let patterns = &safety.blocked_source_patterns;
    let mut i: usize = 0;
    while i < patterns.len()
        invariant
            patterns == &safety.blocked_source_patterns,
            !safety.read_only,
            !(safety.require_etag_for_updates && request.etag is None),
            i <= patterns@.len(),
            first_blocking(patterns@, request.source@, 0) == first_blocking(
                patterns@,
                request.source@,
                i as int,
            ),
        decreases patterns@.len() - i,
    {
        let pattern = &patterns[i];
        if pattern.as_str().unicode_len() > 0 && contains_str(request.source.as_str(), pattern.as_str()) {
            assert(pattern_blocks(patterns@[i as int]@, request.source@));
            assert(first_blocking(patterns@, request.source@, i as int) == Some(i as int));
            let mut message = "source update blocked due to forbidden pattern `".to_owned();
            message.append(pattern.as_str());
            message.append("`");
            return Err(NeuroEngineError::SafetyViolation(message));
        }
        i += 1;
    }
    Ok(())
}

/// Checks that the WebSocket `domain` is allowed: every domain is when the
/// list of allowed domains is empty, else exactly the listed ones.
pub fn enforce_domain_policy(safety: &SafetyPolicy, domain: &str) -> (r: Result<(), NeuroEngineError>)
    ensures
        r is Ok <==> domain_allowed(*safety, domain@),
        r matches Err(e) ==> (e matches NeuroEngineError::SafetyViolation(m) && m@ == "domain `"@
            + domain@ + "` is not in allowed_ws_domains"@),
{
    let allowed = &safety.allowed_ws_domains;
    if allowed.len() == 0 {
        return Ok(());
    }
    let mut i: usize = 0;
    while i < allowed.len()
        invariant
            allowed == &safety.allowed_ws_domains,
            allowed@.len() > 0,
            i <= allowed@.len(),
            forall|j: int| 0 <= j < i ==> allowed@[j]@ != domain@,
        decreases allowed@.len() - i,
    {
        if str_eq(allowed[i].as_str(), domain) {
            assert(safety.allowed_ws_domains@[i as int]@ == domain@);
            return Ok(());
        }
        i += 1;
    }
    let mut message = "domain `".to_owned();
    message.append(domain);
    message.append("` is not in allowed_ws_domains");
    Err(NeuroEngineError::SafetyViolation(message))
}

/// A read-only policy refuses every source update, whatever it holds.
pub proof fn law_read_only_refuses_every_update(
    policy: SafetyPolicy,
    request: AdtUpdateSourceRequest,
)
    requires
        policy.read_only,
    ensures
        update_refusal(policy, request) == Some("updates are disabled by read_only safety policy"@),
{
}

/// A policy that is not read-only, requires no entity tag and blocks no
/// pattern lets every source update through.
pub proof fn law_open_policy_accepts_every_update(
    policy: SafetyPolicy,
    request: AdtUpdateSourceRequest,
)
    requires
        !policy.read_only,
        !policy.require_etag_for_updates,
        policy.blocked_source_patterns@.len() == 0,
    ensures
        update_refusal(policy, request) is None,
{
}

/// An update that carries an entity tag is never refused for lacking one:
/// a policy that is not read-only refuses it only for a blocked pattern that
/// occurs in its source.
pub proof fn law_update_refused_only_for_blocked_pattern(
    policy: SafetyPolicy,
    request: AdtUpdateSourceRequest,
)
    requires
        !policy.read_only,
        request.etag is Some,
    ensures
        update_refusal(policy, request) is Some ==> exists|i: int|
            0 <= i < policy.blocked_source_patterns@.len() && pattern_blocks(
                #[trigger] policy.blocked_source_patterns@[i]@,
                request.source@,
            ),
{
    lemma_first_blocking(policy.blocked_source_patterns@, request.source@, 0);
}

proof fn lemma_first_blocking(patterns: Seq<String>, source: Seq<char>, from: int)
    requires
        0 <= from,
    ensures
        first_blocking(patterns, source, from) matches Some(i) ==> from <= i < patterns.len()
            && pattern_blocks(patterns[i]@, source),
        first_blocking(patterns, source, from) is None ==> forall|j: int|
            from <= j < patterns.len() ==> !pattern_blocks(#[trigger] patterns[j]@, source),
    decreases patterns.len() - from,
{
    if from < patterns.len() && !pattern_blocks(patterns[from]@, source) {
        lemma_first_blocking(patterns, source, from + 1);
    }
}

/// With an empty list of allowed domains, every WebSocket domain is allowed.
pub proof fn law_empty_whitelist_allows_every_domain(policy: SafetyPolicy, domain: Seq<char>)
    requires
        policy.allowed_ws_domains@.len() == 0,
    ensures
        domain_allowed(policy, domain),
{
}

/// `pattern` is non-empty and written somewhere in `source`.
pub open spec fn written_in(pattern: Seq<char>, source: Seq<char>) -> bool {
    pattern.len() > 0 && exists|k: int| occurs_at(source, pattern, k)
}

proof fn lemma_blocks_iff_written(pattern: Seq<char>, source: Seq<char>)
    ensures
        pattern_blocks(pattern, source) <==> written_in(pattern, source),
{
    lemma_find_from(source, pattern, 0);
    if let Some(j) = find_seq(source, pattern) {
        assert(occurs_at(source, pattern, j as int));
    } else {
        assert forall|k: int| !occurs_at(source, pattern, k) by {
            if k < 0 {
            }
        }
    }
}

/// Once a policy is neither read-only nor missing a required entity tag,
/// it refuses an update exactly when one of its non-empty blocked patterns
/// is written somewhere in the new source, and the refusal names the
/// first such pattern of the list.
pub proof fn law_update_refused_iff_pattern_written(
    policy: SafetyPolicy,
    request: AdtUpdateSourceRequest,
)
    requires
        !policy.read_only,
        !(policy.require_etag_for_updates && request.etag is None),
    ensures
        update_refusal(policy, request) is Some <==> exists|i: int|
            0 <= i < policy.blocked_source_patterns@.len() && written_in(
                #[trigger] policy.blocked_source_patterns@[i]@,
                request.source@,
            ),
        update_refusal(policy, request) matches Some(m) ==> exists|i: int|
            0 <= i < policy.blocked_source_patterns@.len() && written_in(
                #[trigger] policy.blocked_source_patterns@[i]@,
                request.source@,
            ) && (forall|j: int| 0 <= j < i ==> !written_in(policy.blocked_source_patterns@[j]@, request.source@))
                && m == "source update blocked due to forbidden pattern `"@ + policy.blocked_source_patterns@[i]@
                + "`"@,
{
    let patterns = policy.blocked_source_patterns@;
    let source = request.source@;
    assert forall|i: int| 0 <= i < patterns.len() implies pattern_blocks(#[trigger] patterns[i]@, source)
        == written_in(patterns[i]@, source) by {
        lemma_blocks_iff_written(patterns[i]@, source);
    }
    lemma_first_blocking(patterns, source, 0);
    lemma_first_blocking_is_first(patterns, source, 0);
}

proof fn lemma_first_blocking_is_first(patterns: Seq<String>, source: Seq<char>, from: int)
    requires
        0 <= from,
    ensures
        first_blocking(patterns, source, from) matches Some(i) ==> forall|j: int|
            from <= j < i ==> !pattern_blocks(#[trigger] patterns[j]@, source),
    decreases patterns.len() - from,
{
    if from < patterns.len() && !pattern_blocks(patterns[from]@, source) {
        lemma_first_blocking_is_first(patterns, source, from + 1);
    }
}

/// A policy that is not read-only but requires an entity tag refuses every
/// update without one, whatever its source, and names the missing tag.
pub proof fn law_missing_etag_is_refused(policy: SafetyPolicy, request: AdtUpdateSourceRequest)
    requires
        !policy.read_only,
        policy.require_etag_for_updates,
        request.etag is None,
    ensures
        update_refusal(policy, request) == Some(
            "updates require an etag but request.etag was not provided"@,
        ),
{
}

/// A non-empty list of allowed domains lets a WebSocket domain through
/// exactly when the list names it; allowing never depends on anything
/// else the policy holds.
pub proof fn law_whitelist_allows_exactly_listed_domains(
    policy: SafetyPolicy,
    other: SafetyPolicy,
    domain: Seq<char>,
)
    requires
        policy.allowed_ws_domains@.len() > 0,
        other.allowed_ws_domains@ == policy.allowed_ws_domains@,
    ensures
        domain_allowed(policy, domain) <==> policy.allowed_ws_domains@.map_values(|d: String| d@).contains(
            domain,
        ),
        domain_allowed(policy, domain) == domain_allowed(other, domain),
{
    let names = policy.allowed_ws_domains@.map_values(|d: String| d@);
    if domain_allowed(policy, domain) {
        let i = choose|i: int|
            0 <= i < policy.allowed_ws_domains@.len() && #[trigger] policy.allowed_ws_domains@[i]@ == domain;
        assert(names[i] == domain);
    }
    if names.contains(domain) {
        let i = choose|i: int| 0 <= i < names.len() && names[i] == domain;
        assert(policy.allowed_ws_domains@[i]@ == domain);
    }
}

} // verus!
