use vstd::prelude::*;

verus! {

/// A persistent-store write was refused.
#[derive(Clone, Copy, Debug, PartialEq, Eq, Structural)]
pub enum StorageError {
    /// An insert hit a row that already carries the given id.
    DuplicateId,
}

/// What the lookup service reports when it cannot hand back a profile.
#[derive(Clone, Copy, Debug, PartialEq, Eq, Structural)]
pub enum ServiceError {
    /// The upstream call failed: a non-success HTTP status (carried here)
    /// or, with `None`, a transport failure before any status arrived.
    Upstream(Option<u16>),
    /// The retry-after cooldown is still active; no upstream call was made.
    SecondaryRateLimit,
    /// The quota window is exhausted; no upstream call was made.
    RateLimitExceeded,
    /// The persistent store failed.
    Storage(StorageError),
}

impl ServiceError {
    /// A short description, for logs and error pages.
    pub fn message(&self) -> (r: &'static str)
        ensures
            *self is Upstream ==> r@ == "Failed to get response!"@,
            *self is SecondaryRateLimit ==> r@ == "Reached the secondary rate limit!"@,
            *self is RateLimitExceeded ==> r@ == "Reached the request limit!"@,
            *self is Storage ==> r@ == "Failed to upsert user!"@,
    {
        match self {
            ServiceError::Upstream(_) => "Failed to get response!",
            ServiceError::SecondaryRateLimit => "Reached the secondary rate limit!",
            ServiceError::RateLimitExceeded => "Reached the request limit!",
            ServiceError::Storage(_) => "Failed to upsert user!",
        }
    }
}

} // verus!
