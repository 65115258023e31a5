use crate::cache::Cache;
use crate::types::Link;
use crate::types::ValidationResult;
use vstd::prelude::*;

verus! {

/// Something used to check whether a link is valid.
///
/// The dispatcher holds an ordered collection of verifiers behind this
/// capability and tries them one after another, so a verifier never needs to
/// know about the others.
pub trait Verifier: Sync {
    /// The classification this verifier gives to a link. This is the
    /// verifier's whole observable behaviour as far as the engine is
    /// concerned: the engine never looks past it.
    spec fn answer(&self, link: Link) -> ValidationResult;

    /// Check the link.
    ///
    /// # Note to Implementors
    ///
    /// If a particular type of [`Link`] isn't supported, you should quickly
    /// detect this and return [`ValidationResult::Unsupported`] so another
    /// [`Verifier`] can be tried. An internal failure (say, a network error)
    /// must be translated into one of the three classifications, never
    /// propagated as a panic.
    fn verify(&self, link: &Link, cache: &dyn Cache) -> (r: ValidationResult)
        ensures
            r == self.answer(*link),
    ;
}

} // verus!
