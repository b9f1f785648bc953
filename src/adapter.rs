//! An adapter that wraps every item of an iterator in an [`OrdBy`].
use core::cmp::Ordering;
use core::marker::PhantomData;
use vstd::prelude::*;
use vstd::std_specs::iter::IteratorSpec;

use crate::wrapper::{accepts_all, contents, OrdBy};

verus! {

/// Gives every iterator the [`OrdByIterTrait::ord_by`] method.
pub trait OrdByIterTrait<T, F: Fn(&T, &T) -> Ordering + Copy>: Iterator<Item = T> + Sized {
    /// Wraps every item in an [`OrdBy`] ordered by `cmp_func`.
    fn ord_by(self, cmp_func: F) -> (r: OrdByIter<Self, T, F>)
        ensures
            r.source() == self,
            r.cmp_func() == cmp_func,
    ;
}

impl<I: Iterator<Item = T>, T, F: Fn(&T, &T) -> Ordering + Copy> OrdByIterTrait<T, F> for I {
    fn ord_by(self, cmp_func: F) -> (r: OrdByIter<I, T, F>) {
        OrdByIter { source: self, cmp_func, phantom: PhantomData }
    }
}

/// The adapter returned by [`OrdByIterTrait::ord_by`]: it yields the items of
/// `source`, each wrapped in an [`OrdBy`] with a copy of `cmp_func`.
#[verifier::reject_recursive_types(T)]
pub struct OrdByIter<I, T, F> {
    source: I,
    cmp_func: F,
    phantom: PhantomData<T>,
}

impl<I: Iterator<Item = T>, T, F: Fn(&T, &T) -> Ordering + Copy> OrdByIter<I, T, F> {
    /// The iterator whose items are wrapped.
    pub closed spec fn source(self) -> I {
        self.source
    }

    /// The comparison function attached to every item.
    pub closed spec fn cmp_func(self) -> F {
        self.cmp_func
    }

    /// Takes the next item of the source and wraps it; `None` exactly when the
    /// source has no item left.
    pub fn next(&mut self) -> (r: Option<OrdBy<T, F>>)
        requires
            accepts_all(old(self).cmp_func()),
        ensures
            final(self).cmp_func() == old(self).cmp_func(),
            r matches Some(w) ==> w.func() == old(self).cmp_func(),
            old(self).source().obeys_prophetic_iter_laws() ==> {
                &&& final(self).source().obeys_prophetic_iter_laws()
                &&& old(self).source().decrease() is Some <==> final(self).source().decrease() is Some
                &&& if old(self).source().remaining().len() > 0 {
                    &&& final(self).source().remaining() == old(self).source().remaining().drop_first()
                    &&& r matches Some(w) && w.content() == old(self).source().remaining()[0]
                    &&& final(self).source().decrease() is Some ==> decreases_to!(
                        old(self).source().decrease()->0 => final(self).source().decrease()->0)
                } else {
                    &&& final(self).source().remaining() == old(self).source().remaining()
                    &&& r is None
                }
            },
    {
        match self.source.next() {
            Some(item) => Some(OrdBy::new(item, self.cmp_func)),
            None => None,
        }
    }

    /// Drains the adapter: the items that the source has left, in order, each
    /// wrapped with the adapter's comparison function.
    pub fn into_vec(self) -> (r: Vec<OrdBy<T, F>>)
        requires
            accepts_all(self.cmp_func()),
            self.source().obeys_prophetic_iter_laws(),
            self.source().decrease() is Some,
        ensures
            r@.len() == self.source().remaining().len(),
            contents(r@) == self.source().remaining(),
            forall|i: int|
                0 <= i < r@.len() ==> (#[trigger] r@[i]).made_from(
                    self.source().remaining()[i],
                    self.cmp_func(),
                ),
    {
        let ghost items = self.source().remaining();
        let ghost f = self.cmp_func();
        let mut it = self;
        let mut out: Vec<OrdBy<T, F>> = Vec::new();
        loop
            invariant
                items == self.source().remaining(),
                f == self.cmp_func(),
                it.cmp_func() == f,
                accepts_all(f),
                it.source().obeys_prophetic_iter_laws(),
                it.source().decrease() is Some,
                out@.len() + it.source().remaining().len() == items.len(),
                it.source().remaining() == items.skip(out@.len() as int),
                forall|i: int|
                    0 <= i < out@.len() ==> (#[trigger] out@[i]).made_from(items[i], f),
            decreases it.source().decrease()->0,
        {
            match it.next() {
                Some(w) => {
                    out.push(w);
                },
                None => {
                    assert(contents(out@) =~= items);
                    return out;
                },
            }
        }
    }
}

} // verus!
