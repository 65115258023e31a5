//! Link verification engine: a pluggable-checker abstraction, a cache-aware
//! dispatcher, and an order-independent aggregate outcome.

pub mod cache;
pub mod engine;
pub mod outcome;
pub mod types;
pub mod verifiers;

pub use cache::Cache;
pub use engine::verify;
pub use engine::verify_one;
pub use outcome::Entry;
pub use outcome::Outcome;
pub use types::Link;
pub use types::Location;
pub use types::ValidationResult;
pub use verifiers::Verifier;
