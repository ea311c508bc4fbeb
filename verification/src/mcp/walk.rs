//! The walk through a package tree: which packages are searched, each
//! once, in the order they are found.
use vstd::prelude::*;

use crate::mcp::paths::canon;
use crate::mcp::xmltext::{parse_xml_references, reference_view, spec_parse_xml_references, ReferenceView};
use crate::text::{eq_ignore_case, lower_seq, str_eq, to_upper, trim};

verus! {

/// The texts of a list of strings.
pub open spec fn texts(v: Seq<String>) -> Seq<Seq<char>> {
    v.map_values(|s: String| s@)
}

/// No text occurs twice.
pub open spec fn no_repeats(s: Seq<Seq<char>>) -> bool {
    forall|i: int, j: int| 0 <= i < s.len() && 0 <= j < s.len() && i != j ==> #[trigger] s[i] != #[trigger] s[j]
}

/// The sub-packages that an object reference names: a reference of type
/// `DEVC/K` (in any letter case) with a non-blank name, that name trimmed
/// and upper-cased.
pub open spec fn child_of(r: ReferenceView) -> Option<Seq<char>> {
    if lower_seq(r.1) == lower_seq("DEVC/K"@) && canon(r.0).len() > 0 {
        Some(canon(r.0))
    } else {
        None
    }
}

/// The sub-packages that a list of references names, in order.
pub open spec fn child_packages(refs: Seq<ReferenceView>) -> Seq<Seq<char>>
    decreases refs.len(),
{
    if refs.len() == 0 {
        Seq::empty()
    } else {
        match child_of(refs[0]) {
            Some(c) => seq![c] + child_packages(refs.drop_first()),
            None => child_packages(refs.drop_first()),
        }
    }
}

/// The packages among `candidates` that are new to `known`, in order, each
/// once.
pub open spec fn newly_found(known: Seq<Seq<char>>, candidates: Seq<Seq<char>>) -> Seq<Seq<char>>
    decreases candidates.len(),
{
    if candidates.len() == 0 {
        Seq::empty()
    } else if known.contains(candidates[0]) {
        newly_found(known, candidates.drop_first())
    } else {
        seq![candidates[0]] + newly_found(known.push(candidates[0]), candidates.drop_first())
    }
}

/// A walk through package trees: every package found so far, in the order
/// found, and the packages still to be read, the last one next.
pub struct PackageWalk {
    expanded: Vec<String>,
    queue: Vec<String>,
}

impl PackageWalk {
    /// Every package found so far, in the order found.
    pub closed spec fn found(&self) -> Seq<Seq<char>> {
        texts(self.expanded@)
    }

    /// The packages still to be read; the last is read next.
    pub closed spec fn pending(&self) -> Seq<Seq<char>> {
        texts(self.queue@)
    }

    /// Each package is found once, and only found packages wait.
    pub closed spec fn well_formed(&self) -> bool {
        &&& no_repeats(self.found())
        &&& forall|i: int| 0 <= i < self.pending().len() ==> self.found().contains(#[trigger] self.pending()[i])
    }

    /// A walk that has found nothing.
    pub fn new() -> (r: Self)
        ensures
            r.well_formed(),
            r.found().len() == 0,
            r.pending().len() == 0,
    {
        PackageWalk { expanded: Vec::new(), queue: Vec::new() }
    }

    /// Whether `name` was found already.
    fn knows(&self, name: &str) -> (r: bool)
        ensures
            r == self.found().contains(name@),
    {
        let mut i: usize = 0;
        while i < self.expanded.len()
            invariant
                i <= self.expanded@.len(),
                forall|k: int| 0 <= k < i ==> self.expanded@[k]@ != name@,
            decreases self.expanded@.len() - i,
        {
            if str_eq(self.expanded[i].as_str(), name) {
                assert(self.found()[i as int] == name@);
                return true;
            }
            i += 1;
        }
        proof {
            if self.found().contains(name@) {
                let k = choose|k: int| 0 <= k < self.found().len() && self.found()[k] == name@;
                assert(self.expanded@[k]@ == name@);
            }
        }
        false
    }

    /// Records `name` as found and to be read.
    fn discover(&mut self, name: String)
        requires
            old(self).well_formed(),
            !old(self).found().contains(name@),
        ensures
            final(self).well_formed(),
            final(self).found() == old(self).found().push(name@),
            final(self).pending() == old(self).pending().push(name@),
    {
        let ghost f0 = self.found();
        let ghost p0 = self.pending();
        self.expanded.push(name.clone());
        self.queue.push(name);
        assert(self.found() =~= f0.push(name@));
        assert(self.pending() =~= p0.push(name@));
        assert forall|i: int| 0 <= i < self.pending().len() implies self.found().contains(
            #[trigger] self.pending()[i],
        ) by {
            if i < p0.len() {
                assert(f0.contains(p0[i]));
                let k = choose|k: int| 0 <= k < f0.len() && f0[k] == p0[i];
                assert(self.found()[k] == p0[i]);
            } else {
                assert(self.found()[f0.len() as int] == name@);
            }
        }
        assert forall|i: int, j: int|
            0 <= i < self.found().len() && 0 <= j < self.found().len() && i != j implies #[trigger] self.found()[i]
            != #[trigger] self.found()[j] by {
            if i < f0.len() && j < f0.len() {
            } else if i < f0.len() {
                assert(f0[i] != name@);
            } else {
                assert(f0[j] != name@);
            }
        }
    }

    /// Starts a walk from `package` (trimmed, upper-cased): a blank name or
    /// a package found before adds nothing.
    pub fn start(&mut self, package: &str)
        requires
            old(self).well_formed(),
        ensures
            final(self).well_formed(),
            final(self).found() == old(self).found() + newly_found(
                old(self).found(),
                if canon(package@).len() > 0 {
                    seq![canon(package@)]
                } else {
                    Seq::<Seq<char>>::empty()
                },
            ),
            final(self).pending() == old(self).pending() + newly_found(
                old(self).found(),
                if canon(package@).len() > 0 {
                    seq![canon(package@)]
                } else {
                    Seq::<Seq<char>>::empty()
                },
            ),
    {
        let root = to_upper(trim(package).as_str());
        let ghost f0 = self.found();
        let ghost p0 = self.pending();
        if root.as_str().is_empty() {
            assert(f0 + Seq::<Seq<char>>::empty() =~= f0);
            assert(p0 + Seq::<Seq<char>>::empty() =~= p0);
            return;
        }
        let ghost cands = seq![root@];
        assert(cands.drop_first() =~= Seq::<Seq<char>>::empty());
        if self.knows(root.as_str()) {
            assert(newly_found(f0, cands) == newly_found(f0, cands.drop_first()));
            assert(newly_found(f0, cands) =~= Seq::<Seq<char>>::empty());
            assert(f0 + Seq::<Seq<char>>::empty() =~= f0);
            assert(p0 + Seq::<Seq<char>>::empty() =~= p0);
            return;
        }
        assert(!f0.contains(cands[0]));
        assert(newly_found(f0, cands) == seq![cands[0]] + newly_found(
            f0.push(cands[0]),
            cands.drop_first(),
        ));
        assert(newly_found(f0.push(cands[0]), cands.drop_first()) =~= Seq::<Seq<char>>::empty());
        assert(newly_found(f0, cands) =~= seq![cands[0]]);
        self.discover(root);
    }

    /// The next package to read, taken off the list.
    pub fn next(&mut self) -> (r: Option<String>)
        requires
            old(self).well_formed(),
        ensures
            final(self).well_formed(),
            final(self).found() == old(self).found(),
            match r {
                Some(p) => old(self).pending().len() > 0 && p@ == old(self).pending().last()
                    && final(self).pending() == old(self).pending().drop_last(),
                None => old(self).pending().len() == 0 && final(self).pending().len() == 0,
            },
    {
        let ghost p0 = self.pending();
        let r = self.queue.pop();
        assert(self.pending() =~= if p0.len() > 0 { p0.drop_last() } else { p0 });
        proof {
            assert forall|i: int| 0 <= i < self.pending().len() implies self.found().contains(
                #[trigger] self.pending()[i],
            ) by {
                assert(self.pending()[i] == p0[i]);
            }
        }
        r
    }

    /// Records the sub-packages that the payload of a package lists: each
    /// `DEVC/K` reference with a non-blank name that was not found before
    /// is found and waits to be read, in document order.
    pub fn absorb(&mut self, raw: &str)
        requires
            old(self).well_formed(),
        ensures
            final(self).well_formed(),
            final(self).found() == old(self).found() + newly_found(
                old(self).found(),
                child_packages(spec_parse_xml_references(raw@)),
            ),
            final(self).pending() == old(self).pending() + newly_found(
                old(self).found(),
                child_packages(spec_parse_xml_references(raw@)),
            ),
    {
        let refs = parse_xml_references(raw);
        let ghost rv = refs@.map_values(|x: crate::mcp::xmltext::XmlReference| reference_view(x));
        let ghost f0 = self.found();
        let ghost p0 = self.pending();
        let ghost total = newly_found(f0, child_packages(rv));
        let mut j: usize = 0;
        assert(rv.skip(0) =~= rv);
        assert(f0 + total =~= f0 + newly_found(f0, child_packages(rv.skip(0))));
        assert(p0 + Seq::<Seq<char>>::empty() =~= p0);
        assert(f0.skip(f0.len() as int) =~= Seq::<Seq<char>>::empty());
        while j < refs.len()
            invariant
                j <= refs@.len(),
                rv == refs@.map_values(|x: crate::mcp::xmltext::XmlReference| reference_view(x)),
                self.well_formed(),
                self.found().len() >= f0.len(),
                self.found().take(f0.len() as int) == f0,
                self.pending() == p0 + self.found().skip(f0.len() as int),
                self.found() + newly_found(self.found(), child_packages(rv.skip(j as int))) == f0 + total,
            decreases refs@.len() - j,
        {
            let ghost fj = self.found();
            let ghost rest = rv.skip(j as int);
            assert(rest.drop_first() =~= rv.skip(j + 1));
            assert(rest[0] == reference_view(refs@[j as int]));
            let r = &refs[j];
            if eq_ignore_case(r.object_type.as_str(), "DEVC/K") {
                let child = to_upper(trim(r.name.as_str()).as_str());
                if !child.as_str().is_empty() {
                    assert(child_packages(rest) == seq![child@] + child_packages(rv.skip(j + 1)));
                    let ghost cands = child_packages(rest);
                    assert(cands.drop_first() =~= child_packages(rv.skip(j + 1)));
                    if !self.knows(child.as_str()) {
                        let ghost cv = child@;
                        self.discover(child);
                        proof {
                            let f1 = self.found();
                            assert(f1 == fj.push(cv));
                            assert(fj + (seq![cv] + newly_found(f1, cands.drop_first())) =~= f1
                                + newly_found(f1, cands.drop_first()));
                            assert(f1.take(f0.len() as int) =~= fj.take(f0.len() as int));
                            assert(f1.skip(f0.len() as int) =~= fj.skip(f0.len() as int).push(cv));
                            assert(self.pending() =~= p0 + f1.skip(f0.len() as int));
                        }
                    }
                } else {
                    assert(child_packages(rest) == child_packages(rv.skip(j + 1)));
                }
            } else {
                assert(child_packages(rest) == child_packages(rv.skip(j + 1)));
            }
            j += 1;
        }
        proof {
            assert(rv.skip(refs@.len() as int) =~= Seq::<ReferenceView>::empty());
            let fe = self.found();
            assert(fe + Seq::<Seq<char>>::empty() =~= fe);
            assert(fe =~= f0 + total);
            assert(fe.skip(f0.len() as int) =~= total);
        }
    }

    /// Every package found, in the order found.
    pub fn found_packages(&self) -> (r: Vec<String>)
        ensures
            texts(r@) == self.found(),
    {
        let mut out: Vec<String> = Vec::new();
        let mut i: usize = 0;
        while i < self.expanded.len()
            invariant
                i <= self.expanded@.len(),
                out@.len() == i,
                forall|k: int| 0 <= k < i ==> #[trigger] out@[k]@ == self.expanded@[k]@,
            decreases self.expanded@.len() - i,
        {
            out.push(self.expanded[i].clone());
            i += 1;
        }
        assert(texts(out@) =~= self.found());
        out
    }
}

} // verus!
