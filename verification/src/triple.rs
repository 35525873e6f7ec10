//! A generic triple with named fields and field-wise transformations.

use vstd::prelude::*;
use vstd::string::to_string_from_display_ensures;

verus! {

/// A triple of three values of independently chosen types, with named
/// fields.
///
/// Generalizes [`crate::Pair`] to arity three, with the same construction,
/// access and mapping operations.
#[derive(Debug, Clone, Copy, PartialEq, Eq, Hash, Default)]
pub struct Triple<F, S, T> {
    /// The first element of the triple.
    pub first: F,
    /// The second element of the triple.
    pub second: S,
    /// The third element of the triple.
    pub third: T,
}

impl<F, S, T> Triple<F, S, T> {
    /// The triple holding the three fields of `t`, in order.
    pub open spec fn spec_from_tuple(t: (F, S, T)) -> Triple<F, S, T> {
        Triple { first: t.0, second: t.1, third: t.2 }
    }

    /// The fields of the triple as an ordered tuple.
    pub open spec fn spec_tuple(self) -> (F, S, T) {
        (self.first, self.second, self.third)
    }

    /// The triple with the first field mapped through `f`.
    pub open spec fn spec_map_first<F2>(self, f: spec_fn(F) -> F2) -> Triple<F2, S, T> {
        Triple { first: f(self.first), second: self.second, third: self.third }
    }

    /// The triple with the second field mapped through `f`.
    pub open spec fn spec_map_second<S2>(self, f: spec_fn(S) -> S2) -> Triple<F, S2, T> {
        Triple { first: self.first, second: f(self.second), third: self.third }
    }

    /// The triple with the third field mapped through `f`.
    pub open spec fn spec_map_third<T2>(self, f: spec_fn(T) -> T2) -> Triple<F, S, T2> {
        Triple { first: self.first, second: self.second, third: f(self.third) }
    }

    /// Creates a new triple from the three field values, in order.
    pub fn new(first: F, second: S, third: T) -> (r: Triple<F, S, T>)
        ensures
            r.first == first,
            r.second == second,
            r.third == third,
    {
        Triple { first, second, third }
    }

    /// Consumes the triple and returns its fields as a tuple, in order.
    pub fn into_tuple(self) -> (r: (F, S, T))
        ensures
            r == self.spec_tuple(),
    {
        (self.first, self.second, self.third)
    }

    /// Returns a reference to the first element.
    pub fn first(&self) -> (r: &F)
        ensures
            *r == self.first,
    {
        &self.first
    }

    /// Returns a reference to the second element.
    pub fn second(&self) -> (r: &S)
        ensures
            *r == self.second,
    {
        &self.second
    }

    /// Returns a reference to the third element.
    pub fn third(&self) -> (r: &T)
        ensures
            *r == self.third,
    {
        &self.third
    }

    /// Returns a mutable reference to the first element.
    pub fn first_mut(&mut self) -> (r: &mut F)
        ensures
            *r == old(self).first,
            final(self).first == *final(r),
            final(self).second == old(self).second,
            final(self).third == old(self).third,
    {
        &mut self.first
    }

    /// Returns a mutable reference to the second element.
    pub fn second_mut(&mut self) -> (r: &mut S)
        ensures
            *r == old(self).second,
            final(self).second == *final(r),
            final(self).first == old(self).first,
            final(self).third == old(self).third,
    {
        &mut self.second
    }

    /// Returns a mutable reference to the third element.
    pub fn third_mut(&mut self) -> (r: &mut T)
        ensures
            *r == old(self).third,
            final(self).third == *final(r),
            final(self).first == old(self).first,
            final(self).second == old(self).second,
    {
        &mut self.third
    }

    /// Consumes the triple and maps its first element through `f`, keeping
    /// the other elements unchanged.
    pub fn map_first<F2, M: FnOnce(F) -> F2>(self, f: M) -> (r: Triple<F2, S, T>)
        requires
            call_requires(f, (self.first,)),
        ensures
            call_ensures(f, (self.first,), r.first),
            r.second == self.second,
            r.third == self.third,
    {
        Triple { first: f(self.first), second: self.second, third: self.third }
    }

    /// Consumes the triple and maps its second element through `f`, keeping
    /// the other elements unchanged.
    pub fn map_second<S2, M: FnOnce(S) -> S2>(self, f: M) -> (r: Triple<F, S2, T>)
        requires
            call_requires(f, (self.second,)),
        ensures
            call_ensures(f, (self.second,), r.second),
            r.first == self.first,
            r.third == self.third,
    {
        Triple { first: self.first, second: f(self.second), third: self.third }
    }

    /// Consumes the triple and maps its third element through `f`, keeping
    /// the other elements unchanged.
    pub fn map_third<T2, M: FnOnce(T) -> T2>(self, f: M) -> (r: Triple<F, S, T2>)
        requires
            call_requires(f, (self.third,)),
        ensures
            call_ensures(f, (self.third,), r.third),
            r.first == self.first,
            r.second == self.second,
    {
        Triple { first: self.first, second: self.second, third: f(self.third) }
    }
}

impl<F: core::fmt::Display, S: core::fmt::Display, T: core::fmt::Display> Triple<F, S, T> {
    /// The triple formatted as `(first, second, third)`: the fields in their
    /// natural textual form, comma-space separated, parenthesized.
    pub fn to_text(&self) -> (r: String)
        ensures
            exists|a: String, b: String, c: String|
                #![auto]
                to_string_from_display_ensures(&self.first, a) && to_string_from_display_ensures(
                    &self.second,
                    b,
                ) && to_string_from_display_ensures(&self.third, c) && r@ == "("@ + a@ + ", "@ + b@
                    + ", "@ + c@ + ")"@,
    {
        let a = self.first.to_string();
        let b = self.second.to_string();
        let c = self.third.to_string();
        let mut m = String::new();
        m.append("(");
        m.append(a.as_str());
        m.append(", ");
        m.append(b.as_str());
        m.append(", ");
        m.append(c.as_str());
        m.append(")");
        proof {
            assert(m@ =~= "("@ + a@ + ", "@ + b@ + ", "@ + c@ + ")"@);
        }
        m
    }
}

impl<F, S, T> From<(F, S, T)> for Triple<F, S, T> {
    /// Creates a triple from a tuple, preserving field order.
    fn from(tuple: (F, S, T)) -> (r: Triple<F, S, T>) {
        Triple { first: tuple.0, second: tuple.1, third: tuple.2 }
    }
}

impl<F, S, T> vstd::std_specs::convert::FromSpecImpl<(F, S, T)> for Triple<F, S, T> {
    open spec fn obeys_from_spec() -> bool {
        true
    }

    open spec fn from_spec(t: (F, S, T)) -> Triple<F, S, T> {
        Triple::spec_from_tuple(t)
    }
}

impl<F, S, T> From<Triple<F, S, T>> for (F, S, T) {
    /// Converts a triple into a tuple, preserving field order.
    fn from(triple: Triple<F, S, T>) -> (r: (F, S, T)) {
        (triple.first, triple.second, triple.third)
    }
}

impl<F, S, T> vstd::std_specs::convert::FromSpecImpl<Triple<F, S, T>> for (F, S, T) {
    open spec fn obeys_from_spec() -> bool {
        true
    }

    open spec fn from_spec(t: Triple<F, S, T>) -> (F, S, T) {
        t.spec_tuple()
    }
}

/// Building a triple from any tuple and converting it back yields the
/// original tuple, and the other way round.
pub proof fn lemma_triple_tuple_round_trip<F, S, T>(t: (F, S, T), x: Triple<F, S, T>)
    ensures
        Triple::spec_from_tuple(t).spec_tuple() == t,
        Triple::spec_from_tuple(x.spec_tuple()) == x,
{
}

/// Mapping the three fields one at a time, in any order of the three map
/// operations, equals building the triple from the three mapped values at
/// once.
pub proof fn lemma_triple_map_all_fields<F, S, T, F2, S2, T2>(
    x: Triple<F, S, T>,
    f: spec_fn(F) -> F2,
    g: spec_fn(S) -> S2,
    h: spec_fn(T) -> T2,
)
    ensures
        x.spec_map_first(f).spec_map_second(g).spec_map_third(h) == (Triple {
            first: f(x.first),
            second: g(x.second),
            third: h(x.third),
        }),
        x.spec_map_third(h).spec_map_second(g).spec_map_first(f) == (Triple {
            first: f(x.first),
            second: g(x.second),
            third: h(x.third),
        }),
{
}

} // verus!
