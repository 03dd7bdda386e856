//! Hardware abstraction for power-regulator control.
//!
//! This crate defines a minimal interface layer meant to be implemented by
//! hardware drivers: a shared error taxonomy ([`ErrorKind`] and the [`Error`]
//! capability), the [`ErrorType`] association, and the [`Regulator`]
//! capability with its two operations, `enable` and `disable`. No runtime
//! logic lives here; concrete drivers supply the behaviour, and the contracts
//! below pin down exactly what this layer itself promises.

use vstd::prelude::*;

verus! {

/// Regulator error kind.
///
/// This represents a common set of errors. Hardware drivers are free to
/// define more specific or additional error types. However, by providing a
/// mapping to these common regulator errors, generic code can still react
/// to them.
#[derive(Debug, Copy, Clone, PartialEq, Eq, Structural, PartialOrd, Ord, Hash)]
#[non_exhaustive]
pub enum ErrorKind {
    /// A different error occurred. The original error may contain more
    /// information.
    Other,
}

/// The fixed human-readable description of an error kind.
pub open spec fn kind_message(k: ErrorKind) -> Seq<char> {
    match k {
        ErrorKind::Other => "A different error occurred. The original error may contain more information"@,
    }
}

impl ErrorKind {
    /// The human-readable description of this error kind, fixed per variant.
    pub fn message(&self) -> (m: &'static str)
        ensures
            m@ == kind_message(*self),
    {
        match self {
            ErrorKind::Other => "A different error occurred. The original error may contain more information",
        }
    }
}

/// Regulator error.
///
/// The classification is total and deterministic: `kind` is defined for
/// every value of the implementing type and returns the value of the
/// implementation's own `kind_spec`, so two calls on equal values agree.
pub trait Error: core::fmt::Debug {
    /// The classification of this error value, as a mathematical function
    /// of the value alone.
    spec fn kind_spec(&self) -> ErrorKind;

    /// Convert the error to a generic regulator error kind.
    ///
    /// By using this method, regulator errors freely defined by driver
    /// implementations can be converted to a set of generic regulator
    /// errors upon which generic code can act.
    fn kind(&self) -> (k: ErrorKind)
        ensures
            k == self.kind_spec(),
    ;
}

impl Error for ErrorKind {
    /// An error kind classifies as itself.
    open spec fn kind_spec(&self) -> ErrorKind {
        *self
    }

    fn kind(&self) -> (k: ErrorKind) {
        *self
    }
}

/// An error kind classifies as itself: the reflexive identity law.
pub proof fn lemma_kind_identity(k: ErrorKind)
    ensures
        k.kind_spec() == k,
{
}

impl Error for core::convert::Infallible {
    /// No value of `Infallible` exists, so any classification is vacuous.
    open spec fn kind_spec(&self) -> ErrorKind {
        ErrorKind::Other
    }

    /// Never reached at runtime: `Infallible` has no values to call it on.
    fn kind(&self) -> (k: ErrorKind) {
        ErrorKind::Other
    }
}

/// Regulator error type trait.
///
/// This just defines the error type, to be used by the other traits.
pub trait ErrorType {
    /// Error type
    type Error: Error;
}

impl<T: ErrorType + ?Sized> ErrorType for &mut T {
    type Error = T::Error;
}

/// A controllable power regulator.
///
/// The two operations request a transition to the energized or de-energized
/// state and report completion through the implementer's associated error
/// type. What "enabled" and "disabled" mean, and how long a transition takes,
/// is entirely the driver's business: this layer prescribes no state machine
/// and no serialization of concurrent callers.
pub trait Regulator: ErrorType {
    /// What the implementation promises of `enable`: a relation between the
    /// driver's state before the call, its state after, and the result.
    /// This layer imposes nothing, so the promise is the implementer's own;
    /// a driver that declares none promises nothing.
    open spec fn enable_ens(pre: &Self, post: &Self, r: Result<(), Self::Error>) -> bool {
        true
    }

    /// What the implementation promises of `disable`.
    open spec fn disable_ens(pre: &Self, post: &Self, r: Result<(), Self::Error>) -> bool {
        true
    }

    /// Request that the regulator transition to (or remain in) the energized
    /// state. Fails with the implementer's error when the transition cannot
    /// be performed or confirmed.
    fn enable(&mut self) -> (r: Result<(), Self::Error>)
        ensures
            Self::enable_ens(&*old(self), &*final(self), r),
    ;

    /// Request that the regulator transition to (or remain in) the
    /// de-energized state. Same failure contract as `enable`.
    fn disable(&mut self) -> (r: Result<(), Self::Error>)
        ensures
            Self::disable_ens(&*old(self), &*final(self), r),
    ;
}

impl<T: Regulator + ?Sized> Regulator for &mut T {
    /// A mutable reference promises exactly what the driver it borrows does.
    open spec fn enable_ens(pre: &Self, post: &Self, r: Result<(), Self::Error>) -> bool {
        T::enable_ens(&**pre, &**post, r)
    }

    open spec fn disable_ens(pre: &Self, post: &Self, r: Result<(), Self::Error>) -> bool {
        T::disable_ens(&**pre, &**post, r)
    }

    fn enable(&mut self) -> (r: Result<(), Self::Error>) {
        T::enable(self)
    }

    fn disable(&mut self) -> (r: Result<(), Self::Error>) {
        T::disable(self)
    }
}

} // verus!
