use crate::types::Link;
use crate::types::Location;
use crate::types::ValidationResult;
use vstd::multiset::Multiset;
use vstd::prelude::*;

verus! {

broadcast use vstd::seq_lib::group_to_multiset_ensures, vstd::multiset::group_multiset_axioms;

/// One classified link: where it was found, the link itself, and the verdict.
pub type Entry = (Location, Link, ValidationResult);

/// The aggregate report of one verification run: conceptually a multiset of
/// classified (location, link, result) triples.
///
/// Each pair submitted to [`crate::verify`] appears in the final outcome
/// exactly once, however many workers or fold steps processed it. The
/// abstraction (the view) is a [`Multiset`], so equality of outcomes ignores
/// the order in which triples were collected; [`Outcome::merge`] is
/// associative and commutative under that abstraction, which is what lets
/// partial outcomes from independent workers be combined in any grouping.
#[derive(Debug)]
pub struct Outcome {
    /// The classified triples, in whatever order this outcome collected
    /// them. The order carries no meaning.
    pub entries: Vec<Entry>,
}

impl View for Outcome {
    type V = Multiset<Entry>;

    open spec fn view(&self) -> Multiset<Entry> {
        self.entries@.to_multiset()
    }
}

impl Outcome {
    /// A fresh, empty outcome, holding no classifications yet.
    pub fn new() -> (r: Outcome)
        ensures
            r@ == Multiset::<Entry>::empty(),
    {
        let r = Outcome { entries: Vec::new() };
        proof {
            vstd::multiset::lemma_multiset_empty_len(r@);
        }
        r
    }

    /// Record one classified link in this outcome.
    pub fn with_result(self, location: Location, link: Link, result: ValidationResult) -> (r:
        Outcome)
        ensures
            r@ == self@.insert((location, link, result)),
    {
        let mut entries = self.entries;
        entries.push((location, link, result));
        Outcome { entries }
    }

    /// Combine two partial outcomes into one that holds every classification
    /// of both.
    ///
    /// Under the multiset abstraction this operation is associative and
    /// commutative with [`Outcome::new`] as identity (see the lemmas in
    /// [`crate::engine`]), so partial outcomes computed over disjoint parts
    /// of an input may be reduced in any order and grouping.
    pub fn merge(left: Outcome, right: Outcome) -> (r: Outcome)
        ensures
            r@ == left@.add(right@),
    {
        let ghost left0 = left.entries@;
        let ghost right0 = right.entries@;
        let mut entries = left.entries;
        let mut rest = right.entries;
        entries.append(&mut rest);
        proof {
            vstd::seq_lib::lemma_multiset_commutative(left0, right0);
        }
        Outcome { entries }
    }

    /// How many links this outcome classified in all.
    pub fn len(&self) -> (r: usize)
        ensures
            r == self@.len(),
    {
        self.entries.len()
    }

    /// How many links this outcome classified with the given result: the
    /// figures of a report such as "N valid, M unsupported, K ignored".
    pub fn count_of(&self, result: ValidationResult) -> (r: usize)
        ensures
            r == spec_count_of(self@, result),
    {
        let ghost all = self.entries@;
        let mut n: usize = 0;
        let mut i: usize = 0;
        proof {
            assert(all.take(0int).to_multiset().filter(entry_has(result)) =~= Multiset::<
                Entry,
            >::empty());
        }
        while i < self.entries.len()
            invariant
                all == self.entries@,
                i <= all.len(),
                n <= i,
                n == spec_count_of(all.take(i as int).to_multiset(), result),
            decreases all.len() - i,
        {
            let ghost prefix = all.take(i as int).to_multiset();
            let e = &self.entries[i];
            if e.2 == result {
                n = n + 1;
            }
            proof {
                assert(all.take(i + 1int) =~= all.take(i as int).push(all[i as int]));
                lemma_filter_insert(prefix, all[i as int], entry_has(result));
            }
            i = i + 1;
        }
        proof {
            assert(all.take(all.len() as int) =~= all);
        }
        n
    }
}

/// Whether an entry carries the given classification.
pub open spec fn entry_has(result: ValidationResult) -> spec_fn(Entry) -> bool {
    |e: Entry| e.2 == result
}

/// How many entries of an outcome carry the given classification.
pub open spec fn spec_count_of(m: Multiset<Entry>, result: ValidationResult) -> nat {
    m.filter(entry_has(result)).len()
}

proof fn lemma_filter_insert(m: Multiset<Entry>, e: Entry, f: spec_fn(Entry) -> bool)
    ensures
        m.insert(e).filter(f).len() == m.filter(f).len() + (if f(e) {
            1nat
        } else {
            0nat
        }),
{
    if f(e) {
        assert(m.insert(e).filter(f) =~= m.filter(f).insert(e));
    } else {
        assert(m.insert(e).filter(f) =~= m.filter(f));
    }
}

/// Law: merging is commutative under the outcome abstraction. Together with
/// [`Outcome::merge`]'s contract: swapping the operands of a merge cannot
/// change what the merged outcome holds.
pub proof fn lemma_merge_commutative(a: Multiset<Entry>, b: Multiset<Entry>)
    ensures
        a.add(b) == b.add(a),
{
    assert(a.add(b) =~= b.add(a));
}

/// Law: merging is associative under the outcome abstraction, so partial
/// outcomes may be reduced pairwise in any grouping.
pub proof fn lemma_merge_associative(a: Multiset<Entry>, b: Multiset<Entry>, c: Multiset<Entry>)
    ensures
        a.add(b).add(c) == a.add(b.add(c)),
{
    assert(a.add(b).add(c) =~= a.add(b.add(c)));
}

/// Law: the empty outcome is the identity of merging, on either side.
pub proof fn lemma_merge_identity(a: Multiset<Entry>)
    ensures
        a.add(Multiset::<Entry>::empty()) == a,
        Multiset::<Entry>::empty().add(a) == a,
{
    assert(a.add(Multiset::<Entry>::empty()) =~= a);
    assert(Multiset::<Entry>::empty().add(a) =~= a);
}

impl Default for Outcome {
    /// An empty outcome, the identity of [`Outcome::merge`].
    fn default() -> (r: Outcome)
        ensures
            r@ == Multiset::<Entry>::empty(),
    {
        Outcome::new()
    }
}

} // verus!
