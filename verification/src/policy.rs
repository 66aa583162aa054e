use vstd::prelude::*;

verus! {

/// The verdict attached to one freshly produced value: may it be kept for
/// later runs, or must it be produced again next time?
#[derive(PartialEq, Eq, Structural, Clone, Copy, Debug)]
pub enum ShouldCache {
    Yes,
    No,
}

impl ShouldCache {
    /// Only `Yes` lets a value into the store.
    pub open spec fn permits(self) -> bool {
        self == ShouldCache::Yes
    }

    /// The verdict that an outcome is owed when nothing else is known of it:
    /// a success may be kept, a failure never.
    pub open spec fn owed_to<T, E>(outcome: Result<T, E>) -> ShouldCache {
        if outcome is Ok {
            ShouldCache::Yes
        } else {
            ShouldCache::No
        }
    }

    pub fn is_yes(self) -> (r: bool)
        ensures
            r == self.permits(),
    {
        match self {
            ShouldCache::Yes => true,
            ShouldCache::No => false,
        }
    }

    /// Pairs an outcome with the verdict it is owed.
    pub fn tag<T, E>(outcome: Result<T, E>) -> (r: (ShouldCache, Result<T, E>))
        ensures
            r.0 == Self::owed_to(outcome),
            r.1 == outcome,
    {
        match outcome {
            Ok(value) => (ShouldCache::Yes, Ok(value)),
            Err(error) => (ShouldCache::No, Err(error)),
        }
    }
}

} // verus!
