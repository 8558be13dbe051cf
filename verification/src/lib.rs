//! Checking conditions with the `IsNoneOr` trait.
//!
//! The provided `is_none_or` method mirrors the core library's `is_some_and`
//! method: it returns `true` if the option is `None`, or if the option is
//! `Some` and the value inside of it matches a predicate. The predicate is
//! never invoked on an absent value, so absence trivially satisfies every
//! predicate.

use vstd::prelude::*;

verus! {

/// Mathematical model of the predicate-or-absent check: an absent value
/// satisfies every predicate, and a present value satisfies the check exactly
/// when the predicate accepts it.
pub open spec fn none_or_holds<T>(o: Option<T>, p: spec_fn(T) -> bool) -> bool {
    match o {
        None => true,
        Some(v) => p(v),
    }
}

/// Free-function form of the predicate-or-absent check: returns `true` if
/// `o` is `None`, or if `o` is `Some` and the value inside of it matches the
/// predicate `f`.
///
/// The predicate is called at most once, and only on a present value, so it
/// need only be callable on the contained value, never on anything else;
/// whatever it promises of its result is all that is known of the check on a
/// present value.
pub fn none_or<T, F: Fn(T) -> bool>(o: Option<T>, f: F) -> (r: bool)
    requires
        o is Some ==> f.requires((o->0,)),
    ensures
        o is None ==> r == true,
        o is Some ==> f.ensures((o->0,), r),
{
    match o {
        None => true,
        Some(v) => f(v),
    }
}

/// Extends an optional value with the predicate-or-absent check.
pub trait IsNoneOr<T>: Sized {
    /// The optional value that the receiver stands for.
    spec fn as_optional(self) -> Option<T>;

    /// Returns `true` if the option is `None`, or if the option is `Some` and
    /// the value inside of it matches the predicate `f`.
    ///
    /// The predicate is called at most once, and only on a present value, so
    /// it need only be callable on the contained value, never on anything
    /// else; whatever it promises of its result is all that is known of the
    /// check on a present value.
    fn is_none_or<F: Fn(T) -> bool>(self, f: F) -> (r: bool)
        requires
            self.as_optional() is Some ==> f.requires((self.as_optional()->0,)),
        ensures
            self.as_optional() is None ==> r == true,
            self.as_optional() is Some ==> f.ensures((self.as_optional()->0,), r),
    ;
}

impl<T> IsNoneOr<T> for Option<T> {
    open spec fn as_optional(self) -> Option<T> {
        self
    }

    fn is_none_or<F: Fn(T) -> bool>(self, f: F) -> (r: bool) {
        none_or(self, f)
    }
}

/// Absence law: an empty optional value passes the check for every predicate,
/// including one that holds of no value at all.
pub proof fn lemma_absence<T>(p: spec_fn(T) -> bool)
    ensures
        none_or_holds(Option::<T>::None, p) == true,
{
}

/// Presence law: an occupied optional value passes the check exactly when the
/// predicate accepts the contained value.
pub proof fn lemma_presence<T>(v: T, p: spec_fn(T) -> bool)
    ensures
        none_or_holds(Some(v), p) == p(v),
{
}

/// Presence law at the level of executable predicates: a result that the
/// contract of `is_none_or` admits for a predicate `f` that implements the
/// specification `p` is exactly the value of the model.
pub proof fn lemma_result_matches_model<T, F: Fn(T) -> bool>(
    o: Option<T>,
    f: F,
    p: spec_fn(T) -> bool,
    r: bool,
)
    requires
        forall|v: T, b: bool| f.ensures((v,), b) ==> b == p(v),
        o is None ==> r == true,
        o is Some ==> f.ensures((o->0,), r),
    ensures
        r == none_or_holds(o, p),
{
}

/// Complement relation: on an occupied optional value, a predicate and its
/// logical negation give opposite results; on an empty one, both give `true`.
pub proof fn lemma_complement<T>(o: Option<T>, p: spec_fn(T) -> bool, q: spec_fn(T) -> bool)
    requires
        forall|v: T| #[trigger] q(v) == !p(v),
    ensures
        o is Some ==> none_or_holds(o, q) == !none_or_holds(o, p),
        o is None ==> none_or_holds(o, p) && none_or_holds(o, q),
{
}

} // verus!
