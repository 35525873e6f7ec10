//! A generic pair with named fields and field-wise transformations.

use vstd::prelude::*;
use vstd::string::to_string_from_display_ensures;

verus! {

/// A pair of two values of independently chosen types, with named fields.
///
/// A typed alternative to the anonymous tuple `(F, S)`: the fields are
/// public, so a pair can be built and read directly, and the mapping
/// operations rebuild it one field at a time.
#[derive(Debug, Clone, Copy, PartialEq, Eq, Hash, Default)]
pub struct Pair<F, S> {
    /// The first element of the pair.
    pub first: F,
    /// The second element of the pair.
    pub second: S,
}

impl<F, S> Pair<F, S> {
    /// The pair holding the two fields of `t`, in order.
    pub open spec fn spec_from_tuple(t: (F, S)) -> Pair<F, S> {
        Pair { first: t.0, second: t.1 }
    }

    /// The fields of the pair as an ordered tuple.
    pub open spec fn spec_tuple(self) -> (F, S) {
        (self.first, self.second)
    }

    /// The pair with the two fields exchanged.
    pub open spec fn spec_swap(self) -> Pair<S, F> {
        Pair { first: self.second, second: self.first }
    }

    /// Creates a new pair from the two field values, in order.
    pub fn new(first: F, second: S) -> (r: Pair<F, S>)
        ensures
            r.first == first,
            r.second == second,
    {
        Pair { first, second }
    }

    /// Consumes the pair and returns its fields as a tuple, in order.
    pub fn into_tuple(self) -> (r: (F, S))
        ensures
            r == self.spec_tuple(),
    {
        (self.first, self.second)
    }

    /// Returns a reference to the first element.
    pub fn first(&self) -> (r: &F)
        ensures
            *r == self.first,
    {
        &self.first
    }

    /// Returns a reference to the second element.
    pub fn second(&self) -> (r: &S)
        ensures
            *r == self.second,
    {
        &self.second
    }

    /// Returns a mutable reference to the first element.
    pub fn first_mut(&mut self) -> (r: &mut F)
        ensures
            *r == old(self).first,
            final(self).first == *final(r),
            final(self).second == old(self).second,
    {
        &mut self.first
    }

    /// Returns a mutable reference to the second element.
    pub fn second_mut(&mut self) -> (r: &mut S)
        ensures
            *r == old(self).second,
            final(self).second == *final(r),
            final(self).first == old(self).first,
    {
        &mut self.second
    }

    /// Consumes the pair and maps its first element through `f`, keeping the
    /// second element unchanged.
    pub fn map_first<F2, M: FnOnce(F) -> F2>(self, f: M) -> (r: Pair<F2, S>)
        requires
            call_requires(f, (self.first,)),
        ensures
            call_ensures(f, (self.first,), r.first),
            r.second == self.second,
    {
        Pair { first: f(self.first), second: self.second }
    }

    /// Consumes the pair and maps its second element through `f`, keeping
    /// the first element unchanged.
    pub fn map_second<S2, M: FnOnce(S) -> S2>(self, f: M) -> (r: Pair<F, S2>)
        requires
            call_requires(f, (self.second,)),
        ensures
            call_ensures(f, (self.second,), r.second),
            r.first == self.first,
    {
        Pair { first: self.first, second: f(self.second) }
    }

    /// Consumes the pair and returns a new pair with the elements (and their
    /// types) exchanged.
    pub fn swap(self) -> (r: Pair<S, F>)
        ensures
            r == self.spec_swap(),
    {
        Pair { first: self.second, second: self.first }
    }
}

impl<F: core::fmt::Display, S: core::fmt::Display> Pair<F, S> {
    /// The pair formatted as `(first, second)`: the fields in their natural
    /// textual form, comma-space separated, parenthesized.
    pub fn to_text(&self) -> (r: String)
        ensures
            exists|a: String, b: String|
                #![auto]
                to_string_from_display_ensures(&self.first, a) && to_string_from_display_ensures(
                    &self.second,
                    b,
                ) && r@ == "("@ + a@ + ", "@ + b@ + ")"@,
    {
        let a = self.first.to_string();
        let b = self.second.to_string();
        let mut m = String::new();
        m.append("(");
        m.append(a.as_str());
        m.append(", ");
        m.append(b.as_str());
        m.append(")");
        proof {
            assert(m@ =~= "("@ + a@ + ", "@ + b@ + ")"@);
        }
        m
    }
}

impl<F, S> From<(F, S)> for Pair<F, S> {
    /// Creates a pair from a tuple, preserving field order.
    fn from(tuple: (F, S)) -> (r: Pair<F, S>) {
        Pair { first: tuple.0, second: tuple.1 }
    }
}

impl<F, S> vstd::std_specs::convert::FromSpecImpl<(F, S)> for Pair<F, S> {
    open spec fn obeys_from_spec() -> bool {
        true
    }

    open spec fn from_spec(t: (F, S)) -> Pair<F, S> {
        Pair::spec_from_tuple(t)
    }
}

impl<F, S> From<Pair<F, S>> for (F, S) {
    /// Converts a pair into a tuple, preserving field order.
    fn from(pair: Pair<F, S>) -> (r: (F, S)) {
        (pair.first, pair.second)
    }
}

impl<F, S> vstd::std_specs::convert::FromSpecImpl<Pair<F, S>> for (F, S) {
    open spec fn obeys_from_spec() -> bool {
        true
    }

    open spec fn from_spec(p: Pair<F, S>) -> (F, S) {
        p.spec_tuple()
    }
}

/// Building a pair from any tuple and converting it back yields the original
/// tuple, and the other way round.
pub proof fn lemma_pair_tuple_round_trip<F, S>(t: (F, S), p: Pair<F, S>)
    ensures
        Pair::spec_from_tuple(t).spec_tuple() == t,
        Pair::spec_from_tuple(p.spec_tuple()) == p,
{
}

/// Swapping a pair twice yields the original pair.
pub proof fn lemma_pair_swap_involutive<F, S>(p: Pair<F, S>)
    ensures
        p.spec_swap().spec_swap() == p,
{
}

} // verus!
