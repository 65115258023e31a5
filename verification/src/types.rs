use vstd::prelude::*;

verus! {

/// A parsed reference (a file path or a web address) whose validity is to be
/// determined. The engine inspects only the `href` string, which also serves
/// as the key for cache lookups.
#[derive(Clone, Debug)]
pub struct Link {
    pub href: String,
}

impl View for Link {
    type V = Seq<char>;

    open spec fn view(&self) -> Seq<char> {
        self.href@
    }
}

impl Link {
    pub fn new(href: String) -> (r: Link)
        ensures
            r@ == href@,
    {
        Link { href }
    }

    /// The string identity of this link.
    pub fn href(&self) -> (r: &str)
        ensures
            r@ == self@,
    {
        self.href.as_str()
    }
}

/// Where a link was found: provenance attached for reporting. The engine
/// carries it through unchanged and never inspects it.
#[derive(Clone, Debug)]
pub struct Location {
    pub file: String,
    pub line: u64,
    pub column: u64,
}

impl View for Location {
    type V = (Seq<char>, u64, u64);

    open spec fn view(&self) -> (Seq<char>, u64, u64) {
        (self.file@, self.line, self.column)
    }
}

impl Location {
    pub fn new(file: String, line: u64, column: u64) -> (r: Location)
        ensures
            r@ == (file@, line, column),
    {
        Location { file, line, column }
    }
}

/// The classification of one link. Every link resolves to exactly one of
/// these three states; there is no separate error state at this layer.
#[derive(Clone, Copy, PartialEq, Eq, Structural, Debug)]
pub enum ValidationResult {
    /// The link was confirmed reachable or existing by the cache or by a
    /// verifier.
    Valid,
    /// No verifier in the chain recognizes this link's scheme or shape.
    Unsupported,
    /// A verifier recognized the link but a policy decision excludes it from
    /// a validity judgment.
    Ignored,
}

impl ValidationResult {
    /// A decisive answer stops the verifier chain; `Unsupported` lets the
    /// next verifier be tried.
    pub open spec fn is_decisive(self) -> bool {
        self != ValidationResult::Unsupported
    }
}

} // verus!
