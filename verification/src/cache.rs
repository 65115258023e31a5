use vstd::prelude::*;

verus! {

/// A shared lookup that can short-circuit re-validation of links already
/// known to be valid.
///
/// The engine treats the cache as read-only and consults it before trying
/// any verifier. Implementations must be safe to call from many threads at
/// once; any internal synchronization is their own responsibility.
pub trait Cache: Sync {
    /// The answer this cache holds for a key: `Some(true)` means known
    /// valid; `Some(false)` means known invalid and `None` means unknown,
    /// neither of which short-circuits anything.
    spec fn spec_is_valid(&self, key: Seq<char>) -> Option<bool>;

    /// Look a key up.
    fn is_valid(&self, key: &str) -> (r: Option<bool>)
        ensures
            r == self.spec_is_valid(key@),
    ;
}

} // verus!
