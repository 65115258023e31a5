use crate::cache::Cache;
use crate::outcome::Entry;
use crate::outcome::Outcome;
use crate::types::Link;
use crate::types::Location;
use crate::types::ValidationResult;
use crate::verifiers::Verifier;
use rayon::iter::IntoParallelIterator;
use rayon::iter::ParallelIterator;
use vstd::multiset::Multiset;
use vstd::prelude::*;

verus! {

broadcast use vstd::seq_lib::group_to_multiset_ensures, vstd::multiset::group_multiset_axioms;

/// The answer a verifier chain gives when its members are tried in order:
/// the first decisive answer, or `Unsupported` when every answer is
/// `Unsupported` (in particular, when the chain is empty).
pub open spec fn chain_answer(answers: Seq<ValidationResult>) -> ValidationResult
    decreases answers.len(),
{
    if answers.len() == 0 {
        ValidationResult::Unsupported
    } else if answers.first().is_decisive() {
        answers.first()
    } else {
        chain_answer(answers.drop_first())
    }
}

/// The answers the configured verifiers give to one link, in the order the
/// chain would consult them.
pub open spec fn answers_of(verifiers: Seq<Box<dyn Verifier>>, link: Link) -> Seq<
    ValidationResult,
> {
    verifiers.map_values(|v: Box<dyn Verifier>| v.answer(link))
}

/// What the dispatcher decides for one link: `Valid` on an affirmatively
/// known-valid cache answer, otherwise the verifier chain's answer.
pub open spec fn spec_verify_one(
    link: Link,
    verifiers: Seq<Box<dyn Verifier>>,
    cache_answer: Option<bool>,
) -> ValidationResult {
    if cache_answer == Some(true) {
        ValidationResult::Valid
    } else {
        chain_answer(answers_of(verifiers, link))
    }
}

/// The classified triples of an input: one per (location, link) pair, in
/// input order, each carrying the dispatcher's decision for its link.
pub open spec fn classified<C: Cache>(
    links: Seq<(Location, Link)>,
    verifiers: Seq<Box<dyn Verifier>>,
    cache: &C,
) -> Seq<Entry> {
    links.map_values(
        |p: (Location, Link)|
            (p.0, p.1, spec_verify_one(p.1, verifiers, cache.spec_is_valid(p.1@))),
    )
}

/// The outcome of one whole run, under the outcome abstraction: the multiset
/// of classified triples, which forgets the order of processing.
pub open spec fn spec_outcome<C: Cache>(
    links: Seq<(Location, Link)>,
    verifiers: Seq<Box<dyn Verifier>>,
    cache: &C,
) -> Multiset<Entry> {
    classified(links, verifiers, cache).to_multiset()
}

proof fn lemma_chain_answer_skip(answers: Seq<ValidationResult>, i: int)
    requires
        0 <= i <= answers.len(),
        forall|j: int| 0 <= j < i ==> !(#[trigger] answers[j]).is_decisive(),
    ensures
        chain_answer(answers) == chain_answer(answers.skip(i)),
    decreases i,
{
    if i > 0 {
        assert(!answers[0].is_decisive());
        lemma_chain_answer_skip(answers.drop_first(), i - 1);
        assert(answers.drop_first().skip(i - 1) =~= answers.skip(i));
    } else {
        assert(answers.skip(0) =~= answers);
    }
}

/// Check one link: consult the cache first, then try each verifier in the
/// order supplied until one gives a decisive answer.
///
/// An affirmatively known-valid cache answer short-circuits to `Valid` with
/// no verifier consulted; any other cache answer means "not yet determined"
/// and never short-circuits anything. Then the verifiers are tried in order:
/// the first `Valid` or `Ignored` answer is returned at once and later
/// verifiers are never consulted; if every verifier answers `Unsupported`,
/// so does the dispatcher — no configured checker recognizes the link, which
/// is reported, not dropped.
pub fn verify_one<C: Cache>(link: &Link, verifiers: &Vec<Box<dyn Verifier>>, cache: &C) -> (r:
    ValidationResult)
    ensures
        r == spec_verify_one(*link, verifiers@, cache.spec_is_valid(link@)),
{
    if let Some(true) = cache.is_valid(link.href()) {
        return ValidationResult::Valid;
    }
    let ghost answers = answers_of(verifiers@, *link);
    let mut i: usize = 0;
    while i < verifiers.len()
        invariant
            0 <= i <= verifiers.len(),
            answers == answers_of(verifiers@, *link),
            cache.spec_is_valid(link@) != Some(true),
            forall|j: int| 0 <= j < i ==> !(#[trigger] answers[j]).is_decisive(),
        decreases verifiers.len() - i,
    {
        let a = verifiers[i].verify(link, cache);
        match a {
            ValidationResult::Unsupported => {},
            _ => {
                proof {
                    lemma_chain_answer_skip(answers, i as int);
                    assert(answers.skip(i as int).first() == answers[i as int]);
                }
                return a;
            },
        }
        i = i + 1;
    }
    proof {
        lemma_chain_answer_skip(answers, answers.len() as int);
        assert(answers.skip(answers.len() as int) =~= Seq::<ValidationResult>::empty());
    }
    ValidationResult::Unsupported
}

/// Relies on rayon's `into_par_iter`, `ParallelIterator::map` and
/// `ParallelIterator::collect` for `Vec`: the parallel iterator of a `Vec`
/// is indexed, `map` applies its closure to every element keeping each
/// item's position, and collecting into a `Vec` produces exactly the mapped
/// elements, one per input element, in their original order. The closure
/// only calls the verified [`verify_one`], whose contract gives each
/// element's result.
#[verifier::external_body]
fn classify_parallel<C: Cache>(
    links: Vec<(Location, Link)>,
    verifiers: &Vec<Box<dyn Verifier>>,
    cache: &C,
) -> (r: Vec<Entry>)
    ensures
        r@.len() == links@.len(),
        forall|k: int|
            0 <= k < links@.len() ==> #[trigger] r@[k] == (
                links@[k].0,
                links@[k].1,
                spec_verify_one(links@[k].1, verifiers@, cache.spec_is_valid(links@[k].1@)),
            ),
{
    links
        .into_par_iter()
        .map(|(location, link): (Location, Link)| {
            let result = verify_one(&link, verifiers, cache);
            (location, link, result)
        })
        .collect()
}

/// Verify every (location, link) pair of the input and aggregate the
/// classifications into one [`Outcome`].
///
/// The pairs are fanned out across rayon's worker threads; each one is
/// dispatched through [`verify_one`] against the shared verifier chain and
/// cache, and appears in the returned outcome exactly once, with the
/// classification the dispatcher gives it. The engine holds no lock and
/// mutates nothing shared: verifiers and cache are only read.
pub fn verify<C: Cache>(
    links: Vec<(Location, Link)>,
    verifiers: &Vec<Box<dyn Verifier>>,
    cache: &C,
) -> (r: Outcome)
    ensures
        r.entries@ == classified(links@, verifiers@, cache),
        r@ == spec_outcome(links@, verifiers@, cache),
        r@.len() == links@.len(),
{
    let ghost links0 = links@;
    let entries = classify_parallel(links, verifiers, cache);
    proof {
        assert(entries@ =~= classified(links0, verifiers@, cache));
    }
    Outcome { entries }
}

/// Law: a known-valid cache answer short-circuits the dispatcher to `Valid`;
/// what the verifiers would have answered cannot matter.
pub proof fn lemma_cache_short_circuit(link: Link, verifiers: Seq<Box<dyn Verifier>>)
    ensures
        spec_verify_one(link, verifiers, Some(true)) == ValidationResult::Valid,
{
}

/// Law: when the cache does not short-circuit, the chain's answer is the
/// answer of the first verifier with a decisive one; the verifiers after it
/// cannot influence the result (and [`verify_one`] never consults them).
pub proof fn lemma_first_decisive_answer(answers: Seq<ValidationResult>, i: int)
    requires
        0 <= i < answers.len(),
        forall|j: int| 0 <= j < i ==> !(#[trigger] answers[j]).is_decisive(),
        answers[i].is_decisive(),
    ensures
        chain_answer(answers) == answers[i],
{
    lemma_chain_answer_skip(answers, i);
    assert(answers.skip(i).first() == answers[i]);
}

/// Law: when every verifier answers `Unsupported` — in particular when there
/// is no verifier at all — the chain answers `Unsupported`.
pub proof fn lemma_exhaustion(answers: Seq<ValidationResult>)
    requires
        forall|j: int| 0 <= j < answers.len() ==> !(#[trigger] answers[j]).is_decisive(),
    ensures
        chain_answer(answers) == ValidationResult::Unsupported,
{
    lemma_chain_answer_skip(answers, answers.len() as int);
    assert(answers.skip(answers.len() as int) =~= Seq::<ValidationResult>::empty());
}

/// Law: aggregation is order-independent. Splitting an input anywhere,
/// processing the two parts independently and merging their outcomes yields
/// the same outcome as processing the whole input at once; applied
/// repeatedly, any partition of the input into subsets, merged in any
/// grouping and order, gives the same outcome (see the merge laws in
/// [`crate::outcome`]).
pub proof fn lemma_aggregation_order_independent<C: Cache>(
    links1: Seq<(Location, Link)>,
    links2: Seq<(Location, Link)>,
    verifiers: Seq<Box<dyn Verifier>>,
    cache: &C,
)
    ensures
        spec_outcome(links1 + links2, verifiers, cache) == spec_outcome(
            links1,
            verifiers,
            cache,
        ).add(spec_outcome(links2, verifiers, cache)),
{
    let c1 = classified(links1, verifiers, cache);
    let c2 = classified(links2, verifiers, cache);
    assert(classified(links1 + links2, verifiers, cache) =~= c1 + c2);
    vstd::seq_lib::lemma_multiset_commutative(c1, c2);
}

} // verus!
