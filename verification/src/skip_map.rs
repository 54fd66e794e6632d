//! Mapping a sequence through a function that may skip an item or fail.

use vstd::prelude::*;
use vstd::std_specs::iter::IteratorSpec;

verus! {

/// The values that are present in `outcomes`, in order.
pub open spec fn present<T>(outcomes: Seq<Option<T>>) -> Seq<T>
    decreases outcomes.len(),
{
    if outcomes.len() == 0 {
        Seq::empty()
    } else {
        present(outcomes.drop_last()) + match outcomes.last() {
            Some(x) => seq![x],
            None => Seq::empty(),
        }
    }
}

/// Whether `outcomes` lists, for the first items of `items` and in their
/// order, a value or a skip that `f` can answer for the item.
pub open spec fn accepts<A, T, E, F: FnMut(&A) -> Result<Option<T>, E>>(
    f: F,
    items: Seq<A>,
    outcomes: Seq<Option<T>>,
) -> bool {
    &&& outcomes.len() <= items.len()
    &&& forall|i: int|
        0 <= i < outcomes.len() ==> call_ensures(f, (&items[i],), Ok(#[trigger] outcomes[i]))
}

/// Whether `f` can do nothing but skip each of `items`.
pub open spec fn skips_all<A, T, E, F: FnMut(&A) -> Result<Option<T>, E>>(
    f: F,
    items: Seq<A>,
) -> bool {
    forall|i: int, r: Result<Option<T>, E>|
        0 <= i < items.len() && #[trigger] call_ensures(f, (&items[i],), r) ==> r == Ok::<
            Option<T>,
            E,
        >(None)
}

/// Whether `g` says, for each of `items`, the one answer that `f` can give.
pub open spec fn answers_as<A, T, E, F: FnMut(&A) -> Result<Option<T>, E>>(
    f: F,
    items: Seq<A>,
    g: spec_fn(A) -> Result<Option<T>, E>,
) -> bool {
    forall|i: int, r: Result<Option<T>, E>|
        0 <= i < items.len() && #[trigger] call_ensures(f, (&items[i],), r) ==> r == g(items[i])
}

/// What mapping `items` through `g` gives: the values that `g` yields, in
/// the order of their items, up to the first item on which `g` fails; from
/// there on the error of that item, and nothing else.
pub open spec fn skip_map<A, T, E>(
    items: Seq<A>,
    g: spec_fn(A) -> Result<Option<T>, E>,
) -> Result<Seq<T>, E>
    decreases items.len(),
{
    if items.len() == 0 {
        Ok(Seq::empty())
    } else {
        match skip_map(items.drop_last(), g) {
            Err(e) => Err(e),
            Ok(values) => match g(items.last()) {
                Err(e) => Err(e),
                Ok(Some(x)) => Ok(values.push(x)),
                Ok(None) => Ok(values),
            },
        }
    }
}

/// An error among the first items is the error of the whole: what follows
/// the failing item changes nothing.
pub proof fn lemma_skip_map_error_stays<A, T, E>(
    items: Seq<A>,
    g: spec_fn(A) -> Result<Option<T>, E>,
    n: int,
)
    requires
        0 <= n <= items.len(),
        skip_map(items.take(n), g) is Err,
    ensures
        skip_map(items, g) == skip_map(items.take(n), g),
    decreases items.len() - n,
{
    if n < items.len() {
        assert(items.take(n + 1).drop_last() =~= items.take(n));
        lemma_skip_map_error_stays(items, g, n + 1);
    } else {
        assert(items.take(n) =~= items);
    }
}

/// Mapping through a function that skips every item gives the empty
/// sequence, whatever the items are.
pub proof fn lemma_skip_map_of_skips<A, T, E>(
    items: Seq<A>,
    g: spec_fn(A) -> Result<Option<T>, E>,
)
    requires
        forall|i: int| 0 <= i < items.len() ==> g(#[trigger] items[i]) == Ok::<Option<T>, E>(None),
    ensures
        skip_map(items, g) == Ok::<Seq<T>, E>(Seq::empty()),
    decreases items.len(),
{
    if items.len() > 0 {
        let front = items.drop_last();
        assert forall|i: int| 0 <= i < front.len() implies g(#[trigger] front[i]) == Ok::<
            Option<T>,
            E,
        >(None) by {
            assert(front[i] == items[i]);
        }
        lemma_skip_map_of_skips(front, g);
        assert(items.last() == items[items.len() - 1]);
    }
}

/// Nothing is present where every outcome is a skip.
pub proof fn lemma_present_of_skips<T>(outcomes: Seq<Option<T>>)
    requires
        forall|i: int| 0 <= i < outcomes.len() ==> outcomes[i] is None,
    ensures
        present(outcomes) == Seq::<T>::empty(),
    decreases outcomes.len(),
{
    if outcomes.len() > 0 {
        lemma_present_of_skips(outcomes.drop_last());
    }
}

/// Every present value is counted once: no more values are present than
/// there are outcomes.
pub proof fn lemma_present_len<T>(outcomes: Seq<Option<T>>)
    ensures
        present(outcomes).len() <= outcomes.len(),
    decreases outcomes.len(),
{
    if outcomes.len() > 0 {
        lemma_present_len(outcomes.drop_last());
    }
}

/// Mapping with skipping and early failure, for every iterator that ends.
pub trait IterHelpers: Iterator {
    /// Applies `f` to each remaining item in order. Collects the values that
    /// `f` yields, skips the items for which it yields nothing, and stops at
    /// the first error, which is returned alone: the items behind it stay in
    /// the iterator.
    ///
    /// The iterator has to be one that ends: it follows the iteration laws
    /// and carries a measure that falls with every item. `f` has to accept
    /// each item that is left.
    ///
    /// The result is stated three times over. For any `f`, the answers that
    /// it gave are named item by item. Where `f` can only skip, the result
    /// is the empty sequence. Where `f` has one answer for each item, given
    /// by a function `g`, the result is `skip_map` of the items and `g`.
    fn try_skip_map<F, T, E>(&mut self, f: F) -> (result: Result<Vec<T>, E>) where
        F: FnMut(&Self::Item) -> Result<Option<T>, E>,

        requires
            <Self as IteratorSpec>::obeys_prophetic_iter_laws(old(self)),
            <Self as IteratorSpec>::decrease(old(self)) is Some,
            forall|i: int|
                0 <= i < <Self as IteratorSpec>::remaining(old(self)).len() ==> call_requires(
                    f,
                    (&#[trigger] <Self as IteratorSpec>::remaining(old(self))[i],),
                ),
        ensures
            match result {
                Ok(out) => exists|outcomes: Seq<Option<T>>|
                    {
                        &&& #[trigger] accepts(
                            f,
                            <Self as IteratorSpec>::remaining(old(self)),
                            outcomes,
                        )
                        &&& outcomes.len() == <Self as IteratorSpec>::remaining(old(self)).len()
                        &&& out@ == present(outcomes)
                        &&& <Self as IteratorSpec>::remaining(final(self)).len() == 0
                    },
                Err(e) => exists|outcomes: Seq<Option<T>>|
                    {
                        &&& #[trigger] accepts(
                            f,
                            <Self as IteratorSpec>::remaining(old(self)),
                            outcomes,
                        )
                        &&& outcomes.len() < <Self as IteratorSpec>::remaining(old(self)).len()
                        &&& call_ensures(
                            f,
                            (&<Self as IteratorSpec>::remaining(old(self))[outcomes.len() as int],),
                            Err::<Option<T>, E>(e),
                        )
                        &&& <Self as IteratorSpec>::remaining(final(self)) == <Self as IteratorSpec>::remaining(
                            old(self),
                        ).skip(outcomes.len() as int + 1)
                    },
            },
            skips_all::<Self::Item, T, E, F>(f, <Self as IteratorSpec>::remaining(old(self)))
                ==> (result matches Ok(out) && out@ == Seq::<T>::empty()),
            forall|g: spec_fn(Self::Item) -> Result<Option<T>, E>| #[trigger]
                answers_as(f, <Self as IteratorSpec>::remaining(old(self)), g) ==> match result {
                    Ok(out) => skip_map(<Self as IteratorSpec>::remaining(old(self)), g) == Ok::<
                        Seq<T>,
                        E,
                    >(out@),
                    Err(e) => skip_map(<Self as IteratorSpec>::remaining(old(self)), g) == Err::<
                        Seq<T>,
                        E,
                    >(e),
                },
    ;
}

impl<I: Iterator> IterHelpers for I {
    fn try_skip_map<F, T, E>(&mut self, f: F) -> (result: Result<Vec<T>, E>) where
        F: FnMut(&Self::Item) -> Result<Option<T>, E>,
     {
        let mut call = f;
        let mut out: Vec<T> = Vec::new();
        let ghost items = <I as IteratorSpec>::remaining(self);
        let ghost mut outcomes: Seq<Option<T>> = Seq::empty();
        loop
            invariant
                <I as IteratorSpec>::obeys_prophetic_iter_laws(self),
                <I as IteratorSpec>::decrease(self) is Some,
                items == <I as IteratorSpec>::remaining(old(self)),
                <I as IteratorSpec>::remaining(self) == items.skip(outcomes.len() as int),
                forall|i: int|
                    0 <= i < items.len() ==> call_requires(f, (&#[trigger] items[i],)),
                call == f,
                accepts(f, items, outcomes),
                out@ == present(outcomes),
                skips_all::<I::Item, T, E, F>(f, items) ==> out@ == Seq::<T>::empty(),
                forall|g: spec_fn(I::Item) -> Result<Option<T>, E>| #[trigger]
                    answers_as(f, items, g) ==> skip_map(items.take(outcomes.len() as int), g)
                        == Ok::<Seq<T>, E>(out@),
            decreases <I as IteratorSpec>::decrease(self)->0,
        {
            match self.next() {
                Some(item) => {
                    match call(&item) {
                        Ok(Some(x)) => {
                            out.push(x);
                            proof {
                                assert(outcomes.push(Some(x)).drop_last() =~= outcomes);
                                assert(items.take(outcomes.len() as int + 1).drop_last() =~= items.take(
                                    outcomes.len() as int,
                                ));
                                outcomes = outcomes.push(Some(x));
                            }
                        },
                        Ok(None) => {
                            proof {
                                assert(outcomes.push(None::<T>).drop_last() =~= outcomes);
                                assert(items.take(outcomes.len() as int + 1).drop_last() =~= items.take(
                                    outcomes.len() as int,
                                ));
                                outcomes = outcomes.push(None);
                            }
                        },
                        Err(e) => {
                            assert(call_ensures(
                                f,
                                (&items[outcomes.len() as int],),
                                Err::<Option<T>, E>(e),
                            ));
                            proof {
                                let n = outcomes.len() as int;
                                assert(items.take(n + 1).drop_last() =~= items.take(n));
                                assert forall|g: spec_fn(I::Item) -> Result<Option<T>, E>| #[trigger]
                                    answers_as(f, items, g) implies skip_map(items, g) == Err::<
                                    Seq<T>,
                                    E,
                                >(e) by {
                                    lemma_skip_map_error_stays(items, g, n + 1);
                                }
                            }
                            return Err(e);
                        },
                    }
                },
                None => {
                    assert(outcomes.len() == items.len());
                    assert(items.take(items.len() as int) =~= items);
                    return Ok(out);
                },
            }
        }
    }
}

} // verus!
