//! Filters over sortable values.
//!
//! A `Filter` selects either a list of accepted values or an inclusive range;
//! a `DirectedFilter` applies a `Filter` to the source field, to the
//! destination field, or to both.  Range filters follow the convention of IP
//! address ranges: both endpoints belong to the range, and the endpoints may
//! be given in either order.

use vstd::prelude::*;
use crate::addr::IpAddr;

verus! {

/// A totally ordered value that filters can select, with an executable
/// comparison and an executable equality that agree with the order.
pub trait Orderable: Sized + Copy {
    spec fn le(self, other: Self) -> bool;

    proof fn lemma_le_total(a: Self, b: Self)
        ensures
            a.le(b) || b.le(a),
    ;

    proof fn lemma_le_antisymmetric(a: Self, b: Self)
        requires
            a.le(b),
            b.le(a),
        ensures
            a == b,
    ;

    proof fn lemma_le_transitive(a: Self, b: Self, c: Self)
        requires
            a.le(b),
            b.le(c),
        ensures
            a.le(c),
    ;

    fn leq(&self, other: &Self) -> (r: bool)
        ensures
            r == self.le(*other),
    ;

    fn equals(&self, other: &Self) -> (r: bool)
        ensures
            r == (*self == *other),
    ;
}

impl Orderable for u16 {
    open spec fn le(self, other: u16) -> bool {
        self <= other
    }

    proof fn lemma_le_total(a: u16, b: u16) {
    }

    proof fn lemma_le_antisymmetric(a: u16, b: u16) {
    }

    proof fn lemma_le_transitive(a: u16, b: u16, c: u16) {
    }

    fn leq(&self, other: &u16) -> bool {
        *self <= *other
    }

    fn equals(&self, other: &u16) -> bool {
        *self == *other
    }
}

impl Orderable for IpAddr {
    /// Every v4 address is below every v6 address; inside a variant the
    /// numeric values order the addresses.
    open spec fn le(self, other: IpAddr) -> bool {
        match (self, other) {
            (IpAddr::V4(a), IpAddr::V4(b)) => a <= b,
            (IpAddr::V4(_), IpAddr::V6(_)) => true,
            (IpAddr::V6(_), IpAddr::V4(_)) => false,
            (IpAddr::V6(a), IpAddr::V6(b)) => a <= b,
        }
    }

    proof fn lemma_le_total(a: IpAddr, b: IpAddr) {
    }

    proof fn lemma_le_antisymmetric(a: IpAddr, b: IpAddr) {
    }

    proof fn lemma_le_transitive(a: IpAddr, b: IpAddr, c: IpAddr) {
    }

    fn leq(&self, other: &IpAddr) -> bool {
        match (self, other) {
            (IpAddr::V4(a), IpAddr::V4(b)) => *a <= *b,
            (IpAddr::V4(_), IpAddr::V6(_)) => true,
            (IpAddr::V6(_), IpAddr::V4(_)) => false,
            (IpAddr::V6(a), IpAddr::V6(b)) => *a <= *b,
        }
    }

    fn equals(&self, other: &IpAddr) -> bool {
        *self == *other
    }
}

/// Membership in the inclusive range whose endpoints are `a` and `b`, in
/// either order.  Symmetric in `a` and `b` by construction.
pub open spec fn in_range<T: Orderable>(a: T, b: T, x: T) -> bool {
    (a.le(x) && x.le(b)) || (b.le(x) && x.le(a))
}

enum InnerFilter<T> {
    Range(T, T),
    List(Vec<T>),
}

/// Generic undirected filter: a membership test given either as a list of
/// accepted values or as an inclusive range.
pub struct Filter<T> {
    inner: InnerFilter<T>,
}

impl<T: Orderable> Filter<T> {
    /// The set of values this filter accepts.
    pub closed spec fn matches(self, x: T) -> bool {
        match self.inner {
            InnerFilter::Range(lo, hi) => lo.le(x) && x.le(hi),
            InnerFilter::List(values) => values@.contains(x),
        }
    }

    /// Filter accepting exactly the values of `values`.
    pub fn from_vec(values: Vec<T>) -> (r: Self)
        ensures
            forall|x: T| #[trigger] r.matches(x) <==> values@.contains(x),
    {
        Self { inner: InnerFilter::List(values) }
    }

    /// Filter accepting exactly the inclusive range between `starting` and
    /// `ending`; the endpoints may come in either order.
    pub fn from_range(starting: T, ending: T) -> (r: Self)
        ensures
            forall|x: T| #[trigger] r.matches(x) <==> in_range(starting, ending, x),
    {
        if starting.leq(&ending) {
            let r = Self { inner: InnerFilter::Range(starting, ending) };
            proof {
                assert forall|x: T| #[trigger] r.matches(x) <==> in_range(starting, ending, x) by {
                    if ending.le(x) && x.le(starting) {
                        T::lemma_le_transitive(ending, x, starting);
                        T::lemma_le_antisymmetric(starting, ending);
                    }
                }
            }
            r
        } else {
            let r = Self { inner: InnerFilter::Range(ending, starting) };
            proof {
                T::lemma_le_total(starting, ending);
                assert forall|x: T| #[trigger] r.matches(x) <==> in_range(starting, ending, x) by {
                    if starting.le(x) && x.le(ending) {
                        T::lemma_le_transitive(ending, starting, x);
                        T::lemma_le_transitive(x, ending, starting);
                    }
                }
            }
            r
        }
    }

    /// Membership test.
    pub fn filter(&self, x: &T) -> (r: bool)
        ensures
            r == self.matches(*x),
    {
        inner_filter_test(&self.inner, x)
    }
}

enum InnerDirectedFilter<T> {
    Source(InnerFilter<T>),
    Destination(InnerFilter<T>),
    Both(InnerFilter<T>),
}

/// Generic directed filter: applies an undirected filter to the source
/// field, to the destination field, or to either of the two.
pub struct DirectedFilter<T> {
    inner: InnerDirectedFilter<T>,
}

impl<T: Orderable> DirectedFilter<T> {
    /// The pairs `(source, destination)` this filter accepts.
    pub closed spec fn accepts(self, source: T, destination: T) -> bool {
        match self.inner {
            InnerDirectedFilter::Source(f) => (Filter { inner: f }).matches(source),
            InnerDirectedFilter::Destination(f) => (Filter { inner: f }).matches(destination),
            InnerDirectedFilter::Both(f) => (Filter { inner: f }).matches(source) || (Filter {
                inner: f,
            }).matches(destination),
        }
    }

    /// Directed filter that looks only at the source field.
    pub fn only_source(filter: Filter<T>) -> (r: Self)
        ensures
            forall|s: T, d: T| #[trigger] r.accepts(s, d) <==> filter.matches(s),
    {
        Self { inner: InnerDirectedFilter::Source(filter.inner) }
    }

    /// Directed filter that looks only at the destination field.
    pub fn only_destination(filter: Filter<T>) -> (r: Self)
        ensures
            forall|s: T, d: T| #[trigger] r.accepts(s, d) <==> filter.matches(d),
    {
        Self { inner: InnerDirectedFilter::Destination(filter.inner) }
    }

    /// Directed filter that accepts a pair when either field matches.
    pub fn both_directions(filter: Filter<T>) -> (r: Self)
        ensures
            forall|s: T, d: T|
                #[trigger] r.accepts(s, d) <==> (filter.matches(s) || filter.matches(d)),
    {
        Self { inner: InnerDirectedFilter::Both(filter.inner) }
    }

    /// Acceptance test for a `(source, destination)` pair.
    pub fn filter(&self, source: &T, destination: &T) -> (r: bool)
        ensures
            r == self.accepts(*source, *destination),
    {
        match &self.inner {
            InnerDirectedFilter::Source(f) => inner_filter_test(f, source),
            InnerDirectedFilter::Destination(f) => inner_filter_test(f, destination),
            InnerDirectedFilter::Both(f) => inner_filter_test(f, source) || inner_filter_test(
                f,
                destination,
            ),
        }
    }
}

fn inner_filter_test<T: Orderable>(f: &InnerFilter<T>, x: &T) -> (r: bool)
    ensures
        r == (Filter { inner: *f }).matches(*x),
{
    match *f {
        InnerFilter::Range(ref lo, ref hi) => lo.leq(x) && x.leq(hi),
        InnerFilter::List(ref values) => {
            let mut i: usize = 0;
            let n = values.len();
            while i < n
                invariant
                    0 <= i <= n,
                    n == values@.len(),
                    forall|j: int| 0 <= j < i ==> values@[j] != *x,
                    (Filter { inner: *f }).matches(*x) == values@.contains(*x),
                decreases n - i,
            {
                if values[i].equals(x) {
                    proof {
                        assert(values@[i as int] == *x);
                        assert(values@.contains(*x));
                    }
                    return true;
                }
                i = i + 1;
            }
            false
        },
    }
}

/// Both endpoints of a range filter belong to the range, whichever order
/// they were given in.
pub proof fn lemma_range_endpoints_included<T: Orderable>(a: T, b: T)
    ensures
        in_range(a, b, a),
        in_range(a, b, b),
{
    T::lemma_le_total(a, a);
    T::lemma_le_total(b, b);
    T::lemma_le_total(a, b);
}

/// A range filter given with its endpoints swapped accepts exactly the same
/// values.
pub proof fn lemma_range_order_irrelevant<T: Orderable>(a: T, b: T, x: T)
    ensures
        in_range(a, b, x) == in_range(b, a, x),
{
}

} // verus!
