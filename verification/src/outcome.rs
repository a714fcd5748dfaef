//! The `Outcome` type and its combinators.

use vstd::prelude::*;

verus! {

use core::cmp::Ordering;
use vstd::std_specs::cmp::PartialEqSpec;
use vstd::std_specs::cmp::PartialOrdSpec;

/// A tri-state outcome: success (`Success`), terminal failure (`Failure`),
/// or forwarding to the next handler (`Forward`).
///
/// Exactly one variant is active at a time; the variant is fixed at
/// construction and every transformation produces a new value.
#[must_use]
#[derive(Clone, Copy, Eq, Ord, Hash)]
pub enum Outcome<S, E, F> {
    /// Contains the success value.
    Success(S),
    /// Contains the failure error value.
    Failure(E),
    /// Contains the value to forward on.
    Forward(F),
}

impl<S, E, F> Outcome<S, E, F> {
    /// The success payload, if this is a `Success`.
    pub open spec fn succeeded_spec(self) -> Option<S> {
        match self {
            Outcome::Success(val) => Some(val),
            _ => None,
        }
    }

    /// The failure payload, if this is a `Failure`.
    pub open spec fn failed_spec(self) -> Option<E> {
        match self {
            Outcome::Failure(val) => Some(val),
            _ => None,
        }
    }

    /// The forward payload, if this is a `Forward`.
    pub open spec fn forwarded_spec(self) -> Option<F> {
        match self {
            Outcome::Forward(val) => Some(val),
            _ => None,
        }
    }

    /// Returns true iff this `Outcome` is a `Success`.
    pub fn is_success(&self) -> (r: bool)
        ensures
            r == (self is Success),
    {
        match *self {
            Outcome::Success(_) => true,
            _ => false,
        }
    }

    /// Returns true iff this `Outcome` is a `Failure`.
    pub fn is_failure(&self) -> (r: bool)
        ensures
            r == (self is Failure),
    {
        match *self {
            Outcome::Failure(_) => true,
            _ => false,
        }
    }

    /// Returns true iff this `Outcome` is a `Forward`.
    pub fn is_forward(&self) -> (r: bool)
        ensures
            r == (self is Forward),
    {
        match *self {
            Outcome::Forward(_) => true,
            _ => false,
        }
    }

    /// Unwraps the `Outcome`, yielding the contents of a `Success`.
    ///
    /// Calling this on a `Failure` or a `Forward` is a fatal abort of the
    /// process, not an error to handle, so those inputs are ruled out: a
    /// caller must prove the value is a `Success`.
    pub fn unwrap(self) -> (r: S)
        requires
            self is Success,
        ensures
            self == Outcome::<S, E, F>::Success(r),
    {
        match self {
            Outcome::Success(val) => val,
            _ => vstd::pervasive::unreached(),
        }
    }

    /// Unwraps the `Outcome`, yielding the contents of a `Success`, with a
    /// caller-supplied diagnostic message for the abort on any other variant.
    ///
    /// As with `unwrap`, the aborting inputs are ruled out, so the message is
    /// never rendered.
    pub fn expect(self, message: &str) -> (r: S)
        requires
            self is Success,
        ensures
            self == Outcome::<S, E, F>::Success(r),
    {
        match self {
            Outcome::Success(val) => val,
            _ => vstd::pervasive::unreached(),
        }
    }

    /// Converts from `Outcome<S, E, F>` to `Option<S>`.
    ///
    /// Returns `Some` of the `Success` payload if this is a `Success`,
    /// otherwise `None`. `self` is consumed, and any other payload is
    /// discarded.
    pub fn succeeded(self) -> (r: Option<S>)
        ensures
            r == self.succeeded_spec(),
    {
        match self {
            Outcome::Success(val) => Some(val),
            _ => None,
        }
    }

    /// Converts from `Outcome<S, E, F>` to `Option<E>`.
    ///
    /// Returns `Some` of the `Failure` payload if this is a `Failure`,
    /// otherwise `None`. `self` is consumed, and any other payload is
    /// discarded.
    pub fn failed(self) -> (r: Option<E>)
        ensures
            r == self.failed_spec(),
    {
        match self {
            Outcome::Failure(val) => Some(val),
            _ => None,
        }
    }

    /// Converts from `Outcome<S, E, F>` to `Option<F>`.
    ///
    /// Returns `Some` of the `Forward` payload if this is a `Forward`,
    /// otherwise `None`. `self` is consumed, and any other payload is
    /// discarded.
    pub fn forwarded(self) -> (r: Option<F>)
        ensures
            r == self.forwarded_spec(),
    {
        match self {
            Outcome::Forward(val) => Some(val),
            _ => None,
        }
    }

    /// Converts from `&Outcome<S, E, F>` to `Outcome<&S, &E, &F>`: a
    /// read-only view that preserves the active variant and borrows the
    /// payload in place of copying or consuming it.
    pub fn as_ref(&self) -> (r: Outcome<&S, &E, &F>)
        ensures
            (match (*self, r) {
                (Outcome::Success(v), Outcome::Success(rv)) => v == *rv,
                (Outcome::Failure(v), Outcome::Failure(rv)) => v == *rv,
                (Outcome::Forward(v), Outcome::Forward(rv)) => v == *rv,
                _ => false,
            }),
    {
        match self {
            Outcome::Success(val) => Outcome::Success(val),
            Outcome::Failure(val) => Outcome::Failure(val),
            Outcome::Forward(val) => Outcome::Forward(val),
        }
    }

    /// Converts from `&mut Outcome<S, E, F>` to `Outcome<&mut S, &mut E,
    /// &mut F>`: a mutable view that preserves the active variant and permits
    /// modifying the payload in place. Whatever the caller writes through the
    /// returned reference becomes the payload, and the variant stays as it
    /// was.
    pub fn as_mut(&mut self) -> (r: Outcome<&mut S, &mut E, &mut F>)
        ensures
            (match (*old(self), r) {
                (Outcome::Success(v), Outcome::Success(m)) => *m == v
                    && *final(self) == Outcome::<S, E, F>::Success(*final(m)),
                (Outcome::Failure(v), Outcome::Failure(m)) => *m == v
                    && *final(self) == Outcome::<S, E, F>::Failure(*final(m)),
                (Outcome::Forward(v), Outcome::Forward(m)) => *m == v
                    && *final(self) == Outcome::<S, E, F>::Forward(*final(m)),
                _ => false,
            }),
    {
        match self {
            Outcome::Success(val) => Outcome::Success(val),
            Outcome::Failure(val) => Outcome::Failure(val),
            Outcome::Forward(val) => Outcome::Forward(val),
        }
    }
}

/// Conversion from some type into an `Outcome`.
///
/// Each implementation fixes a policy for what a missing or erroneous value
/// maps to (`Failure` or `Forward`), so that code written against simpler
/// two-state result or optional-presence types can feed an `Outcome` pipeline
/// without bespoke glue at every call site.
pub trait IntoOutcome<S, E, F>: Sized {
    /// The outcome that the conversion yields.
    spec fn into_outcome_spec(self) -> Outcome<S, E, F>;

    /// Converts `self` into an `Outcome`.
    fn into_outcome(self) -> (r: Outcome<S, E, F>)
        ensures
            r == self.into_outcome_spec(),
    ;
}

/// A two-state result adapts by treating its error as terminal: `Ok` becomes
/// `Success` and `Err` becomes `Failure`.
impl<S, E, F> IntoOutcome<S, E, F> for Result<S, E> {
    open spec fn into_outcome_spec(self) -> Outcome<S, E, F> {
        match self {
            Ok(val) => Outcome::Success(val),
            Err(err) => Outcome::Failure(err),
        }
    }

    fn into_outcome(self) -> (r: Outcome<S, E, F>) {
        match self {
            Ok(val) => Outcome::Success(val),
            Err(err) => Outcome::Failure(err),
        }
    }
}

/// An optional-presence value, paired with the context to forward on absence,
/// adapts by declining instead of failing: a present value becomes `Success`
/// and an absent one becomes `Forward` carrying the paired value.
impl<S, E, F> IntoOutcome<S, E, F> for (Option<S>, F) {
    open spec fn into_outcome_spec(self) -> Outcome<S, E, F> {
        match self.0 {
            Some(val) => Outcome::Success(val),
            None => Outcome::Forward(self.1),
        }
    }

    fn into_outcome(self) -> (r: Outcome<S, E, F>) {
        match self.0 {
            Some(val) => Outcome::Success(val),
            None => Outcome::Forward(self.1),
        }
    }
}

impl<S: PartialEq, E: PartialEq, F: PartialEq> PartialEq for Outcome<S, E, F> {
    fn eq(&self, other: &Self) -> (r: bool) {
        match (self, other) {
            (Outcome::Success(a), Outcome::Success(b)) => a == b,
            (Outcome::Failure(a), Outcome::Failure(b)) => a == b,
            (Outcome::Forward(a), Outcome::Forward(b)) => a == b,
            _ => false,
        }
    }
}

impl<S: PartialEq, E: PartialEq, F: PartialEq> vstd::std_specs::cmp::PartialEqSpecImpl for Outcome<S, E, F> {
    open spec fn obeys_eq_spec() -> bool {
        &&& S::obeys_eq_spec()
        &&& E::obeys_eq_spec()
        &&& F::obeys_eq_spec()
    }

    open spec fn eq_spec(&self, other: &Self) -> bool {
        match (*self, *other) {
            (Outcome::Success(a), Outcome::Success(b)) => a.eq_spec(&b),
            (Outcome::Failure(a), Outcome::Failure(b)) => a.eq_spec(&b),
            (Outcome::Forward(a), Outcome::Forward(b)) => a.eq_spec(&b),
            _ => false,
        }
    }
}

impl<S: PartialOrd, E: PartialOrd, F: PartialOrd> PartialOrd for Outcome<S, E, F> {
    fn partial_cmp(&self, other: &Self) -> (r: Option<Ordering>) {
        match (self, other) {
            (Outcome::Success(a), Outcome::Success(b)) => a.partial_cmp(b),
            (Outcome::Success(_), _) => Some(Ordering::Less),
            (Outcome::Failure(_), Outcome::Success(_)) => Some(Ordering::Greater),
            (Outcome::Failure(a), Outcome::Failure(b)) => a.partial_cmp(b),
            (Outcome::Failure(_), Outcome::Forward(_)) => Some(Ordering::Less),
            (Outcome::Forward(a), Outcome::Forward(b)) => a.partial_cmp(b),
            (Outcome::Forward(_), _) => Some(Ordering::Greater),
        }
    }
}

impl<S: PartialOrd, E: PartialOrd, F: PartialOrd> vstd::std_specs::cmp::PartialOrdSpecImpl for Outcome<S, E, F> {
    open spec fn obeys_partial_cmp_spec() -> bool {
        &&& S::obeys_partial_cmp_spec()
        &&& E::obeys_partial_cmp_spec()
        &&& F::obeys_partial_cmp_spec()
    }

    open spec fn partial_cmp_spec(&self, other: &Self) -> Option<Ordering> {
        match (*self, *other) {
            (Outcome::Success(a), Outcome::Success(b)) => a.partial_cmp_spec(&b),
            (Outcome::Success(_), _) => Some(Ordering::Less),
            (Outcome::Failure(_), Outcome::Success(_)) => Some(Ordering::Greater),
            (Outcome::Failure(a), Outcome::Failure(b)) => a.partial_cmp_spec(&b),
            (Outcome::Failure(_), Outcome::Forward(_)) => Some(Ordering::Less),
            (Outcome::Forward(a), Outcome::Forward(b)) => a.partial_cmp_spec(&b),
            (Outcome::Forward(_), _) => Some(Ordering::Greater),
        }
    }
}

/// The total ordering ranks variants in declaration order: any `Success`
/// compares less than any `Failure`, which compares less than any `Forward`,
/// whatever the payloads hold; two values of the same variant compare by the
/// payload's own ordering.
pub proof fn lemma_order_by_variant<S: PartialOrd, E: PartialOrd, F: PartialOrd>(
    a: Outcome<S, E, F>,
    b: Outcome<S, E, F>,
)
    ensures
        a is Success && b is Failure ==> a.partial_cmp_spec(&b) == Some(Ordering::Less),
        a is Success && b is Forward ==> a.partial_cmp_spec(&b) == Some(Ordering::Less),
        a is Failure && b is Forward ==> a.partial_cmp_spec(&b) == Some(Ordering::Less),
        a is Failure && b is Success ==> a.partial_cmp_spec(&b) == Some(Ordering::Greater),
        a is Forward && b is Success ==> a.partial_cmp_spec(&b) == Some(Ordering::Greater),
        a is Forward && b is Failure ==> a.partial_cmp_spec(&b) == Some(Ordering::Greater),
        (match (a, b) {
            (Outcome::Success(x), Outcome::Success(y)) => a.partial_cmp_spec(&b)
                == x.partial_cmp_spec(&y),
            (Outcome::Failure(x), Outcome::Failure(y)) => a.partial_cmp_spec(&b)
                == x.partial_cmp_spec(&y),
            (Outcome::Forward(x), Outcome::Forward(y)) => a.partial_cmp_spec(&b)
                == x.partial_cmp_spec(&y),
            _ => true,
        }),
{
}

/// Exactly one of the three variant predicates holds of any value: the
/// variants are mutually exclusive and collectively exhaustive.
pub proof fn lemma_variants_exclusive_exhaustive<S, E, F>(o: Outcome<S, E, F>)
    ensures
        o is Success ==> !(o is Failure) && !(o is Forward),
        o is Failure ==> !(o is Success) && !(o is Forward),
        o is Forward ==> !(o is Success) && !(o is Failure),
        o is Success || o is Failure || o is Forward,
{
}

/// Each consuming extraction yields a present value exactly when the
/// corresponding variant predicate holds.
pub proof fn lemma_extraction_matches_variant<S, E, F>(o: Outcome<S, E, F>)
    ensures
        o.succeeded_spec() is Some <==> o is Success,
        o.failed_spec() is Some <==> o is Failure,
        o.forwarded_spec() is Some <==> o is Forward,
{
}

} // verus!
