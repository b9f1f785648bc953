//! A value paired with the function that orders it.
use core::cmp::Ordering;
use vstd::prelude::*;
use vstd::std_specs::cmp::PartialEqSpec;

verus! {

/// A wrapper around a value of type `T`, ordered by the comparison function `F`
/// instead of by any order that `T` itself may have.
pub struct OrdBy<T, F: Fn(&T, &T) -> Ordering> {
    content: T,
    func: F,
}

/// `f` accepts every pair of values: it is a comparison function with no
/// precondition of its own.
pub open spec fn accepts_all<T, F: Fn(&T, &T) -> Ordering>(f: F) -> bool {
    forall|a: &T, b: &T| #[trigger] f.requires((a, b))
}

impl<T, F: Fn(&T, &T) -> Ordering> OrdBy<T, F> {
    /// The wrapped value.
    pub closed spec fn content(self) -> T {
        self.content
    }

    /// The comparison function that orders this value.
    pub closed spec fn func(self) -> F {
        self.func
    }

    /// This wrapper holds `content` and is ordered by `func`.
    pub open spec fn made_from(self, content: T, func: F) -> bool {
        self.content() == content && self.func() == func
    }

    /// `r` is a result that comparing `self` with `other` may give: one that
    /// `self`'s function returns on the two contents.
    pub open spec fn cmp_outcome(self, other: Self, r: Ordering) -> bool {
        self.func().ensures((&self.content(), &other.content()), r)
    }

    #[verifier::type_invariant]
    closed spec fn inv(self) -> bool {
        accepts_all(self.func)
    }

    /// Creates a new `OrdBy`, wrapping `content`, ordered by `func`.
    pub fn new(content: T, func: F) -> (r: Self)
        requires
            accepts_all(func),
        ensures
            r.made_from(content, func),
    {
        OrdBy { content, func }
    }

    /// Unwraps the `OrdBy`, returning the wrapped value.
    pub fn into_inner(self) -> (r: T)
        ensures
            r == self.content(),
    {
        self.content
    }

    /// Borrows the wrapped value.
    pub fn borrow(&self) -> (r: &T)
        ensures
            *r == self.content(),
    {
        &self.content
    }

    /// Compares two wrapped values with `self`'s comparison function.
    pub fn cmp(&self, other: &Self) -> (r: Ordering)
        ensures
            self.cmp_outcome(*other, r),
    {
        proof {
            use_type_invariant(self);
        }
        (self.func)(&self.content, &other.content)
    }
}

/// `s` is in order under `f`: no result that `f` gives on an earlier item and a
/// later one is `Greater`.
pub open spec fn sorted_by<T, F: Fn(&T, &T) -> Ordering>(s: Seq<T>, f: F) -> bool {
    forall|i: int, j: int, r: Ordering|
        0 <= i < j < s.len() && #[trigger] f.ensures((&s[i], &s[j]), r) ==> r
            != Ordering::Greater
}

/// `ws` is in order under the wrappers' own comparison: no result of comparing
/// an earlier wrapper with a later one is `Greater`.
pub open spec fn sorted_wrapped<T, F: Fn(&T, &T) -> Ordering>(ws: Seq<OrdBy<T, F>>) -> bool {
    forall|i: int, j: int, r: Ordering|
        0 <= i < j < ws.len() && #[trigger] ws[i].cmp_outcome(ws[j], r) ==> r
            != Ordering::Greater
}

/// The values that `ws` wraps, in order.
pub open spec fn contents<T, F: Fn(&T, &T) -> Ordering>(ws: Seq<OrdBy<T, F>>) -> Seq<T> {
    ws.map_values(|w: OrdBy<T, F>| w.content())
}

/// Unwrapping or borrowing a wrapper made from `content` gives `content` back,
/// whatever its comparison function.
pub proof fn lemma_content_of_new<T, F: Fn(&T, &T) -> Ordering>(
    content: T,
    func: F,
    w: OrdBy<T, F>,
)
    requires
        w.made_from(content, func),
    ensures
        w.content() == content,
{
}

/// Comparing a wrapper made from `a` with one made from `b`, both with `f`,
/// gives exactly the results that `f` gives on `a` and `b`.
pub proof fn lemma_cmp_of_new<T, F: Fn(&T, &T) -> Ordering>(
    a: T,
    b: T,
    f: F,
    x: OrdBy<T, F>,
    y: OrdBy<T, F>,
)
    requires
        x.made_from(a, f),
        y.made_from(b, f),
    ensures
        forall|r: Ordering| #[trigger] x.cmp_outcome(y, r) <==> f.ensures((&a, &b), r),
{
}

/// Wrappers that all carry `f` are in order under their own comparison exactly
/// when the values they wrap are in order under `f`: sorting the wrappers puts
/// the values in the order that sorting them with `f` does.
pub proof fn lemma_sorted_wrapped_iff_sorted_by<T, F: Fn(&T, &T) -> Ordering>(
    ws: Seq<OrdBy<T, F>>,
    f: F,
)
    requires
        forall|i: int| 0 <= i < ws.len() ==> (#[trigger] ws[i]).func() == f,
    ensures
        sorted_wrapped(ws) <==> sorted_by(contents(ws), f),
{
    let s = contents(ws);
    assert forall|i: int, j: int, r: Ordering|
        0 <= i < j < ws.len() implies #[trigger] ws[i].cmp_outcome(ws[j], r) == f.ensures(
        (&s[i], &s[j]),
        r,
    ) by {
        assert(ws[i].func() == f);
    }
    if sorted_wrapped(ws) {
        assert forall|i: int, j: int, r: Ordering|
            0 <= i < j < s.len() && #[trigger] f.ensures((&s[i], &s[j]), r) implies r
            != Ordering::Greater by {
            assert(ws[i].cmp_outcome(ws[j], r));
        }
    }
    if sorted_by(s, f) {
        assert forall|i: int, j: int, r: Ordering|
            0 <= i < j < ws.len() && #[trigger] ws[i].cmp_outcome(ws[j], r) implies r
            != Ordering::Greater by {
            assert(f.ensures((&s[i], &s[j]), r));
        }
    }
}

impl<T, F: Fn(&T, &T) -> Ordering> core::ops::Deref for OrdBy<T, F> {
    type Target = T;

    /// Reads through to the wrapped value.
    fn deref(&self) -> (r: &T)
        ensures
            *r == self.content(),
    {
        &self.content
    }
}

/// Two wrappers are equal when their contents are equal, whatever their
/// comparison functions.
impl<T: PartialEq, F: Fn(&T, &T) -> Ordering> PartialEq for OrdBy<T, F> {
    fn eq(&self, other: &Self) -> (r: bool) {
        self.content == other.content
    }
}

impl<T: PartialEq, F: Fn(&T, &T) -> Ordering> vstd::std_specs::cmp::PartialEqSpecImpl for OrdBy<T, F> {
    open spec fn obeys_eq_spec() -> bool {
        T::obeys_eq_spec()
    }

    open spec fn eq_spec(&self, other: &Self) -> bool {
        self.content().eq_spec(&other.content())
    }
}

impl<T: Eq, F: Fn(&T, &T) -> Ordering> Eq for OrdBy<T, F> {}

/// Two wrappers are always comparable: the partial order is the order that
/// `self`'s comparison function gives.
impl<T: PartialEq, F: Fn(&T, &T) -> Ordering> PartialOrd for OrdBy<T, F> {
    fn partial_cmp(&self, other: &Self) -> (r: Option<Ordering>)
        ensures
            r matches Some(o) && self.cmp_outcome(*other, o),
    {
        Some(self.cmp(other))
    }
}

/// A comparison function may give different results on equal arguments, so no
/// single result is promised here: `partial_cmp` states what it returns itself.
impl<T: PartialEq, F: Fn(&T, &T) -> Ordering> vstd::std_specs::cmp::PartialOrdSpecImpl for OrdBy<T, F> {
    open spec fn obeys_partial_cmp_spec() -> bool {
        false
    }

    open spec fn partial_cmp_spec(&self, other: &Self) -> Option<Ordering> {
        Some(choose|o: Ordering| self.cmp_outcome(*other, o))
    }
}

} // verus!
