//! Activating a package's inactive objects: which objects, in which order,
//! and the request that activates each.
use vstd::prelude::*;

use crate::mcp::paths::{canon, canon_string, object_type_priority, spec_object_type_priority};
use crate::mcp::requests::{request_view, HttpMethod, RawRequest, RequestView};
use crate::mcp::xmltext::{escape_xml, reference_view, spec_escape_xml, ReferenceView, XmlReference};
use crate::text::{append, concat, decimal, decimal_string, eq_ignore_case, lower_seq, owned, to_lower};

verus! {

/// The deployment ranks, lowest first.
pub open spec fn priority_levels() -> Seq<u32> {
    seq![10u32, 20, 30, 40, 50, 60, 70, 80, 90, 100, 500]
}

/// An inactive object that is activated: it has a URL, and (when a package
/// is named) its parent is that package.
pub open spec fn is_candidate(r: ReferenceView, package: Seq<char>) -> bool {
    &&& r.2.len() > 0
    &&& canon(package).len() == 0 || (r.3 matches Some(p) && lower_seq(p) == lower_seq(
        "/sap/bc/adt/packages/"@ + lower_seq(canon(package)),
    ))
}

/// The candidates among `refs`, in order.
pub open spec fn candidates(refs: Seq<ReferenceView>, package: Seq<char>) -> Seq<ReferenceView>
    decreases refs.len(),
{
    if refs.len() == 0 {
        Seq::empty()
    } else {
        let rest = candidates(refs.drop_last(), package);
        if is_candidate(refs.last(), package) {
            rest.push(refs.last())
        } else {
            rest
        }
    }
}

/// The objects of `refs` with rank `p`, in order.
pub open spec fn at_level(refs: Seq<ReferenceView>, p: u32) -> Seq<ReferenceView>
    decreases refs.len(),
{
    if refs.len() == 0 {
        Seq::empty()
    } else {
        let rest = at_level(refs.drop_last(), p);
        if spec_object_type_priority(refs.last().1) == p {
            rest.push(refs.last())
        } else {
            rest
        }
    }
}

/// The objects of `refs` with the first `k` ranks, rank by rank, each rank
/// in the order of `refs` (a stable sort by rank).
pub open spec fn by_priority(refs: Seq<ReferenceView>, k: int) -> Seq<ReferenceView>
    decreases k,
{
    if k <= 0 {
        Seq::empty()
    } else {
        by_priority(refs, k - 1) + at_level(refs, priority_levels()[k - 1])
    }
}

/// The object limit: 100 unless another positive one is given.
pub open spec fn object_limit(max_objects: Option<u32>) -> int {
    match max_objects {
        Some(m) => if m < 1 {
            1
        } else {
            m as int
        },
        None => 100,
    }
}

/// The objects a package activation activates, in order: the candidates,
/// stably sorted by rank, at most the limit.
pub open spec fn activation_order_spec(refs: Seq<ReferenceView>, package: Seq<char>, max_objects: Option<u32>) -> Seq<ReferenceView> {
    let sorted = by_priority(candidates(refs, package), 11);
    if sorted.len() <= object_limit(max_objects) {
        sorted
    } else {
        sorted.take(object_limit(max_objects))
    }
}

/// References as plain values.
pub open spec fn refs_view(v: Seq<XmlReference>) -> Seq<ReferenceView> {
    v.map_values(|x: XmlReference| reference_view(x))
}

/// A copy of a reference.
pub fn copy_reference(r: &XmlReference) -> (c: XmlReference)
    ensures
        reference_view(c) == reference_view(*r),
{
    XmlReference {
        name: r.name.clone(),
        object_type: r.object_type.clone(),
        uri: r.uri.clone(),
        parent_uri: match &r.parent_uri {
            Some(p) => Some(p.clone()),
            None => None,
        },
    }
}

fn candidate_test(r: &XmlReference, package: &str, expected: &str, Ghost(pk): Ghost<Seq<char>>) -> (b: bool)
    requires
        expected@ == "/sap/bc/adt/packages/"@ + lower_seq(package@),
        package@ == canon(pk),
    ensures
        b == is_candidate(reference_view(*r), pk),
{
    if r.uri.as_str().is_empty() {
        return false;
    }
    if package.is_empty() {
        return true;
    }
    match &r.parent_uri {
        Some(p) => eq_ignore_case(p.as_str(), expected),
        None => false,
    }
}

/// The candidates among `refs`.
fn select_candidates(refs: &Vec<XmlReference>, package: &str, Ghost(pk): Ghost<Seq<char>>) -> (r: Vec<XmlReference>)
    requires
        package@ == canon(pk),
    ensures
        refs_view(r@) == candidates(refs_view(refs@), pk),
{
    let lowered = to_lower(package);
    let expected = concat("/sap/bc/adt/packages/", lowered.as_str());
    let ghost all = refs_view(refs@);
    let mut out: Vec<XmlReference> = Vec::new();
    let mut i: usize = 0;
    while i < refs.len()
        invariant
            i <= refs@.len(),
            all == refs_view(refs@),
            package@ == canon(pk),
            expected@ == "/sap/bc/adt/packages/"@ + lower_seq(package@),
            refs_view(out@) == candidates(all.take(i as int), pk),
        decreases refs@.len() - i,
    {
        assert(all.take(i + 1).drop_last() =~= all.take(i as int));
        assert(all.take(i + 1).last() == reference_view(refs@[i as int]));
        if candidate_test(&refs[i], package, expected.as_str(), Ghost(pk)) {
            let ghost before = out@;
            out.push(copy_reference(&refs[i]));
            assert(refs_view(out@) =~= refs_view(before).push(reference_view(refs@[i as int])));
        }
        i += 1;
    }
    assert(all.take(refs@.len() as int) =~= all);
    out
}

/// Appends the objects of `refs` with rank `p`.
fn append_level(out: &mut Vec<XmlReference>, refs: &Vec<XmlReference>, p: u32)
    ensures
        refs_view(final(out)@) == refs_view(old(out)@) + at_level(refs_view(refs@), p),
{
    let ghost start = refs_view(out@);
    let ghost all = refs_view(refs@);
    let mut i: usize = 0;
    while i < refs.len()
        invariant
            i <= refs@.len(),
            all == refs_view(refs@),
            refs_view(out@) == start + at_level(all.take(i as int), p),
        decreases refs@.len() - i,
    {
        assert(all.take(i + 1).drop_last() =~= all.take(i as int));
        assert(all.take(i + 1).last() == reference_view(refs@[i as int]));
        if object_type_priority(refs[i].object_type.as_str()) == p {
            let ghost before = out@;
            out.push(copy_reference(&refs[i]));
            assert(refs_view(out@) =~= refs_view(before).push(reference_view(refs@[i as int])));
            assert(start + at_level(all.take(i + 1), p) =~= (start + at_level(all.take(i as int), p)).push(
                reference_view(refs@[i as int]),
            ));
        }
        i += 1;
    }
    assert(all.take(refs@.len() as int) =~= all);
}

/// The objects that activating a package activates, in order: those with
/// a URL (and, when a package is named, whose parent is that package),
/// stably sorted by rank, at most `max_objects` (100 unless given).
pub fn activation_order(refs: &Vec<XmlReference>, package: Option<String>, max_objects: Option<u32>) -> (r: Vec<XmlReference>)
    ensures
        refs_view(r@) == activation_order_spec(
            refs_view(refs@),
            match package {
                Some(p) => p@,
                None => Seq::empty(),
            },
            max_objects,
        ),
{
    proof {
        reveal_strlit("");
    }
    let filter = match &package {
        Some(p) => canon_string(p.as_str()),
        None => {
            let f = canon_string("");
            assert(f@ == canon(Seq::<char>::empty()));
            f
        },
    };
    let ghost pk = match package {
        Some(p) => p@,
        None => Seq::<char>::empty(),
    };
    assert(filter@ == canon(pk));
    let chosen = select_candidates(refs, filter.as_str(), Ghost(pk));
    let ghost cands = candidates(refs_view(refs@), pk);
    let levels: [u32; 11] = [10, 20, 30, 40, 50, 60, 70, 80, 90, 100, 500];
    assert(levels@ =~= priority_levels());
    let mut sorted: Vec<XmlReference> = Vec::new();
    let mut k: usize = 0;
    while k < 11
        invariant
            k <= 11,
            levels@ == priority_levels(),
            refs_view(chosen@) == cands,
            refs_view(sorted@) == by_priority(cands, k as int),
        decreases 11 - k,
    {
        append_level(&mut sorted, &chosen, levels[k]);
        k += 1;
    }
    let limit: usize = match max_objects {
        Some(m) => if m < 1 {
            1
        } else {
            m as usize
        },
        None => 100,
    };
    if sorted.len() > limit {
        sorted.truncate(limit);
        assert(refs_view(sorted@) =~= by_priority(cands, 11).take(limit as int));
    }
    sorted
}

/// The body that activates one object of a package.
pub open spec fn package_activation_body(r: ReferenceView) -> Seq<char> {
    "<?xml version=\"1.0\" encoding=\"UTF-8\"?>\n<adtcore:objectReferences xmlns:adtcore=\"http://www.sap.com/adt/core\">\n  <adtcore:objectReference adtcore:uri=\""@
        + spec_escape_xml(r.2) + "\" adtcore:name=\""@ + spec_escape_xml(r.0)
        + "\"/>\n</adtcore:objectReferences>"@
}

/// The request that activates one object of a package.
pub open spec fn spec_package_activation_request(r: ReferenceView) -> RequestView {
    (
        HttpMethod::Post,
        "/sap/bc/adt/activation?method=activate&preauditRequested=true"@,
        Some(package_activation_body(r)),
        Some("application/xml"@),
        None,
    )
}

/// The request that activates one object of a package (its URL and name
/// escaped).
pub fn package_activation_request(r: &XmlReference) -> (q: RawRequest)
    ensures
        request_view(q) == spec_package_activation_request(reference_view(*r)),
{
    let mut body = concat(
        "<?xml version=\"1.0\" encoding=\"UTF-8\"?>\n<adtcore:objectReferences xmlns:adtcore=\"http://www.sap.com/adt/core\">\n  <adtcore:objectReference adtcore:uri=\"",
        escape_xml(r.uri.as_str()).as_str(),
    );
    append(&mut body, "\" adtcore:name=\"");
    append(&mut body, escape_xml(r.name.as_str()).as_str());
    append(&mut body, "\"/>\n</adtcore:objectReferences>");
    RawRequest {
        method: HttpMethod::Post,
        path: owned("/sap/bc/adt/activation?method=activate&preauditRequested=true"),
        body: Some(body),
        content_type: Some(owned("application/xml")),
        accept: None,
    }
}


/// What `at_level` keeps has that rank and comes from the input.
proof fn lemma_at_level(refs: Seq<ReferenceView>, p: u32)
    ensures
        forall|i: int|
            0 <= i < at_level(refs, p).len() ==> spec_object_type_priority(#[trigger] at_level(refs, p)[i].1) == p
                && refs.contains(at_level(refs, p)[i]),
    decreases refs.len(),
{
    if refs.len() > 0 {
        lemma_at_level(refs.drop_last(), p);
        let rest = at_level(refs.drop_last(), p);
        assert forall|i: int| 0 <= i < rest.len() implies refs.contains(#[trigger] rest[i]) by {
            assert(spec_object_type_priority(rest[i].1) == p && refs.drop_last().contains(rest[i]));
            let k = choose|k: int| 0 <= k < refs.drop_last().len() && refs.drop_last()[k] == rest[i];
            assert(refs[k] == rest[i]);
        }
        assert(refs[refs.len() - 1] == refs.last());
    }
}

/// What `candidates` keeps is a candidate and comes from the input.
proof fn lemma_candidates(refs: Seq<ReferenceView>, package: Seq<char>)
    ensures
        forall|i: int|
            0 <= i < candidates(refs, package).len() ==> is_candidate(#[trigger] candidates(refs, package)[i], package)
                && refs.contains(candidates(refs, package)[i]),
    decreases refs.len(),
{
    if refs.len() > 0 {
        lemma_candidates(refs.drop_last(), package);
        let rest = candidates(refs.drop_last(), package);
        assert forall|i: int| 0 <= i < rest.len() implies refs.contains(#[trigger] rest[i]) by {
            assert(is_candidate(rest[i], package) && refs.drop_last().contains(rest[i]));
            let k = choose|k: int| 0 <= k < refs.drop_last().len() && refs.drop_last()[k] == rest[i];
            assert(refs[k] == rest[i]);
        }
        assert(refs[refs.len() - 1] == refs.last());
    }
}

/// The ranks rise strictly.
proof fn lemma_levels_rise()
    ensures
        forall|a: int, b: int| 0 <= a < b < 11 ==> priority_levels()[a] < priority_levels()[b],
{
    let l = priority_levels();
    assert(l[0] == 10 && l[1] == 20 && l[2] == 30 && l[3] == 40 && l[4] == 50 && l[5] == 60);
    assert(l[6] == 70 && l[7] == 80 && l[8] == 90 && l[9] == 100 && l[10] == 500);
}

/// The first `k` rank groups come in rising rank, none above the `k`-th
/// rank, and each object comes from the input.
proof fn lemma_by_priority(refs: Seq<ReferenceView>, k: int)
    requires
        0 <= k <= 11,
    ensures
        forall|i: int|
            0 <= i < by_priority(refs, k).len() ==> refs.contains(#[trigger] by_priority(refs, k)[i]) && spec_object_type_priority(
                by_priority(refs, k)[i].1,
            ) <= priority_levels()[k - 1],
        forall|i: int, j: int|
            0 <= i < j < by_priority(refs, k).len() ==> spec_object_type_priority(#[trigger] by_priority(refs, k)[i].1)
                <= spec_object_type_priority(#[trigger] by_priority(refs, k)[j].1),
    decreases k,
{
    if k > 0 {
        lemma_by_priority(refs, k - 1);
        lemma_at_level(refs, priority_levels()[k - 1]);
        lemma_levels_rise();
        let first = by_priority(refs, k - 1);
        let second = at_level(refs, priority_levels()[k - 1]);
        let all = by_priority(refs, k);
        assert(all == first + second);
        assert forall|i: int| 0 <= i < all.len() implies refs.contains(#[trigger] all[i])
            && spec_object_type_priority(all[i].1) <= priority_levels()[k - 1] by {
            if i < first.len() {
                assert(all[i] == first[i]);
                assert(k > 1);
                assert(refs.contains(first[i]));
                assert(spec_object_type_priority(first[i].1) <= priority_levels()[k - 2]);
                assert(priority_levels()[k - 2] < priority_levels()[k - 1]);
            } else {
                assert(all[i] == second[i - first.len()]);
                assert(spec_object_type_priority(second[i - first.len()].1) == priority_levels()[k - 1]);
                assert(refs.contains(second[i - first.len()]));
            }
        }
        assert forall|i: int, j: int| 0 <= i < j < all.len() implies spec_object_type_priority(#[trigger] all[i].1)
            <= spec_object_type_priority(#[trigger] all[j].1) by {
            if j < first.len() {
                assert(all[i] == first[i] && all[j] == first[j]);
            } else if i >= first.len() {
                assert(all[i] == second[i - first.len()] && all[j] == second[j - first.len()]);
            } else {
                assert(all[i] == first[i] && all[j] == second[j - first.len()]);
                if k > 1 {
                    assert(priority_levels()[k - 2] < priority_levels()[k - 1]);
                }
            }
        }
    }
}

/// A package activation activates objects in dependency order (a lower
/// rank never comes after a higher one), activates only inactive objects
/// that have a URL and, when a package is named, belong to it, and
/// activates at most the object limit.
pub proof fn law_activation_follows_dependency_order(
    refs: Seq<ReferenceView>,
    package: Seq<char>,
    max_objects: Option<u32>,
)
    ensures
        activation_order_spec(refs, package, max_objects).len() <= object_limit(max_objects),
        forall|i: int, j: int|
            0 <= i < j < activation_order_spec(refs, package, max_objects).len() ==> spec_object_type_priority(
                #[trigger] activation_order_spec(refs, package, max_objects)[i].1,
            ) <= spec_object_type_priority(#[trigger] activation_order_spec(refs, package, max_objects)[j].1),
        forall|i: int|
            0 <= i < activation_order_spec(refs, package, max_objects).len() ==> refs.contains(
                #[trigger] activation_order_spec(refs, package, max_objects)[i],
            ) && is_candidate(activation_order_spec(refs, package, max_objects)[i], package),
{
    let c = candidates(refs, package);
    lemma_candidates(refs, package);
    lemma_by_priority(c, 11);
    let sorted = by_priority(c, 11);
    let out = activation_order_spec(refs, package, max_objects);
    assert forall|i: int| 0 <= i < out.len() implies refs.contains(#[trigger] out[i]) && is_candidate(out[i], package) by {
        assert(out[i] == sorted[i]);
        assert(c.contains(sorted[i]));
        let k = choose|k: int| 0 <= k < c.len() && c[k] == sorted[i];
        assert(is_candidate(c[k], package) && refs.contains(c[k]));
    }
    assert forall|i: int, j: int| 0 <= i < j < out.len() implies spec_object_type_priority(#[trigger] out[i].1)
        <= spec_object_type_priority(#[trigger] out[j].1) by {
        assert(out[i] == sorted[i] && out[j] == sorted[j]);
    }
}

/// The summary line of a package activation.
pub open spec fn spec_activation_summary(activated: nat, failed: nat) -> Seq<char> {
    "Activated "@ + decimal(activated) + " objects, "@ + decimal(failed) + " failed"@
}

/// The summary line of a package activation:
/// `Activated <n> objects, <m> failed`.
pub fn activation_summary(activated: usize, failed: usize) -> (r: String)
    ensures
        r@ == spec_activation_summary(activated as nat, failed as nat),
{
    let mut r = owned("Activated ");
    append(&mut r, decimal_string(activated as u64).as_str());
    append(&mut r, " objects, ");
    append(&mut r, decimal_string(failed as u64).as_str());
    append(&mut r, " failed");
    r
}

} // verus!
