use vstd::prelude::*;

verus! {

/// Outcomes whose failure has been reported and can be let go.
pub trait LogError: Sized {
    type Unwrapped;

    /// What is left of the outcome once its failure is dropped.
    spec fn success(self) -> Option<Self::Unwrapped>;

    fn log_error(self) -> (kept: Option<Self::Unwrapped>)
        ensures
            kept == self.success(),
    ;
}

impl<T, E> LogError for Result<T, E> {
    type Unwrapped = T;

    open spec fn success(self) -> Option<T> {
        match self {
            Ok(value) => Some(value),
            Err(_) => None,
        }
    }

    fn log_error(self) -> (kept: Option<T>) {
        match self {
            Ok(value) => Some(value),
            Err(_) => None,
        }
    }
}

/// Optional parts that count only when all of them are there.
pub trait AllOrNone<T>: Sized {
    /// The whole, where no part is missing.
    spec fn whole(self) -> Option<T>;

    fn all_or_none(self) -> (all: Option<T>)
        ensures
            all == self.whole(),
    ;
}

impl<U, V> AllOrNone<(U, V)> for (Option<U>, Option<V>) {
    open spec fn whole(self) -> Option<(U, V)> {
        match self {
            (Some(u), Some(v)) => Some((u, v)),
            _ => None,
        }
    }

    fn all_or_none(self) -> (all: Option<(U, V)>) {
        match self {
            (Some(u), Some(v)) => Some((u, v)),
            _ => None,
        }
    }
}

impl<T> AllOrNone<T> for Option<Option<T>> {
    open spec fn whole(self) -> Option<T> {
        match self {
            Some(inner) => inner,
            None => None,
        }
    }

    fn all_or_none(self) -> (all: Option<T>) {
        match self {
            Some(inner) => inner,
            None => None,
        }
    }
}

impl<T> AllOrNone<T> for Option<Option<Option<T>>> {
    open spec fn whole(self) -> Option<T> {
        match self {
            Some(Some(inner)) => inner,
            _ => None,
        }
    }

    fn all_or_none(self) -> (all: Option<T>) {
        match self {
            Some(Some(inner)) => inner,
            _ => None,
        }
    }
}

} // verus!
