use vstd::prelude::*;

verus! {

/// A value of one of two kinds.
#[derive(Debug, PartialEq, Eq)]
pub enum Either<L, R> {
    Left(L),
    Right(R),
}

/// `f` can be called on the value, where it is a left one.
pub open spec fn left_callable<L, L2, R, F: Fn(L) -> L2>(f: F, from: Either<L, R>) -> bool {
    match from {
        Either::Left(l) => f.requires((l,)),
        Either::Right(_) => true,
    }
}

/// `f` can be called on the value, where it is a right one.
pub open spec fn right_callable<L, R, R2, F: Fn(R) -> R2>(f: F, from: Either<L, R>) -> bool {
    match from {
        Either::Left(_) => true,
        Either::Right(r) => f.requires((r,)),
    }
}

/// `to` is `from` with `f` applied to a left value; a right one is kept.
pub open spec fn left_mapped<L, L2, R, F: Fn(L) -> L2>(
    f: F,
    from: Either<L, R>,
    to: Either<L2, R>,
) -> bool {
    match from {
        Either::Left(l) => to is Left && f.ensures((l,), to->Left_0),
        Either::Right(r) => to == Either::<L2, R>::Right(r),
    }
}

/// `to` is `from` with `f` applied to a right value; a left one is kept.
pub open spec fn right_mapped<L, R, R2, F: Fn(R) -> R2>(
    f: F,
    from: Either<L, R>,
    to: Either<L, R2>,
) -> bool {
    match from {
        Either::Left(l) => to == Either::<L, R2>::Left(l),
        Either::Right(r) => to is Right && f.ensures((r,), to->Right_0),
    }
}

/// The same items, last first.
fn reversed<T>(items: Vec<T>) -> (turned: Vec<T>)
    ensures
        turned@ == items@.reverse(),
{
    let mut items = items;
    let mut turned: Vec<T> = Vec::new();
    let ghost all = items@;
    while items.len() > 0
        invariant
            items@.len() + turned@.len() == all.len(),
            items@ == all.take(items@.len() as int),
            forall|i: int| 0 <= i < turned@.len() ==> turned@[i] == all[all.len() - 1 - i],
        decreases items.len(),
    {
        let item = items.pop().unwrap();
        turned.push(item);
    }
    turned
}

/// The items that a mapping over a sequence of `Either` gives, handed out
/// one by one from the first.
pub struct IterEither<L, R> {
    /// What is still to come, last first.
    rest: Vec<Either<L, R>>,
}

impl<L, R> IterEither<L, R> {
    /// The items that are still to come, in their order.
    pub closed spec fn remaining(&self) -> Seq<Either<L, R>> {
        self.rest@.reverse()
    }

    /// The next item, if one is left.
    pub fn next(&mut self) -> (item: Option<Either<L, R>>)
        ensures
            match item {
                Some(first) => old(self).remaining().len() > 0 && first == old(
                    self,
                ).remaining().first() && final(self).remaining() == old(
                    self,
                ).remaining().drop_first(),
                None => old(self).remaining().len() == 0 && final(self).remaining() == old(
                    self,
                ).remaining(),
            },
    {
        self.rest.pop()
    }

    /// All the items that are left, in their order.
    pub fn into_vec(self) -> (items: Vec<Either<L, R>>)
        ensures
            items@ == self.remaining(),
    {
        reversed(self.rest)
    }
}

/// Mapping one side of a sequence of `Either` and keeping the other.
pub trait IterEitherExt<L, R>: Sized {
    /// The items of the sequence, in their order.
    spec fn items(self) -> Seq<Either<L, R>>;

    fn map_left<L2, F: Fn(L) -> L2>(self, f: F) -> (mapped: IterEither<L2, R>)
        requires
            forall|i: int| 0 <= i < self.items().len() ==> left_callable(f, #[trigger] self.items()[i]),
        ensures
            mapped.remaining().len() == self.items().len(),
            forall|i: int|
                0 <= i < self.items().len() ==> left_mapped(
                    f,
                    self.items()[i],
                    #[trigger] mapped.remaining()[i],
                ),
    ;

    fn map_right<R2, F: Fn(R) -> R2>(self, f: F) -> (mapped: IterEither<L, R2>)
        requires
            forall|i: int|
                0 <= i < self.items().len() ==> right_callable(f, #[trigger] self.items()[i]),
        ensures
            mapped.remaining().len() == self.items().len(),
            forall|i: int|
                0 <= i < self.items().len() ==> right_mapped(
                    f,
                    self.items()[i],
                    #[trigger] mapped.remaining()[i],
                ),
    ;
}

impl<L, R> IterEitherExt<L, R> for Vec<Either<L, R>> {
    open spec fn items(self) -> Seq<Either<L, R>> {
        self@
    }

    fn map_left<L2, F: Fn(L) -> L2>(self, f: F) -> (mapped: IterEither<L2, R>) {
        let ghost all = self.items();
        let mut todo = reversed(self);
        let mut done: Vec<Either<L2, R>> = Vec::new();
        while todo.len() > 0
            invariant
                todo@.len() + done@.len() == all.len(),
                forall|i: int| 0 <= i < todo@.len() ==> todo@[i] == all[all.len() - 1 - i],
                forall|i: int| 0 <= i < all.len() ==> left_callable(f, #[trigger] all[i]),
                forall|i: int| 0 <= i < done@.len() ==> left_mapped(f, all[i], #[trigger] done@[i]),
            decreases todo.len(),
        {
            let item = todo.pop().unwrap();
            let to = match item {
                Either::Left(l) => Either::Left(f(l)),
                Either::Right(r) => Either::Right(r),
            };
            done.push(to);
        }
        IterEither { rest: reversed(done) }
    }

    fn map_right<R2, F: Fn(R) -> R2>(self, f: F) -> (mapped: IterEither<L, R2>) {
        let ghost all = self.items();
        let mut todo = reversed(self);
        let mut done: Vec<Either<L, R2>> = Vec::new();
        while todo.len() > 0
            invariant
                todo@.len() + done@.len() == all.len(),
                forall|i: int| 0 <= i < todo@.len() ==> todo@[i] == all[all.len() - 1 - i],
                forall|i: int| 0 <= i < all.len() ==> right_callable(f, #[trigger] all[i]),
                forall|i: int|
                    0 <= i < done@.len() ==> right_mapped(f, all[i], #[trigger] done@[i]),
            decreases todo.len(),
        {
            let item = todo.pop().unwrap();
            let to = match item {
                Either::Left(l) => Either::Left(l),
                Either::Right(r) => Either::Right(f(r)),
            };
            done.push(to);
        }
        IterEither { rest: reversed(done) }
    }
}

} // verus!
