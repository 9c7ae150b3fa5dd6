//! Small conversions between results and outcomes.

use vstd::prelude::*;
use crate::responses::Outcome;

verus! {

/// Turns a result around: its success becomes the error and its error the
/// success.
pub trait OkAsError<T, E> {
    /// The turned result.
    spec fn turned(self) -> Result<E, T>;

    /// Turns the result around.
    fn ok_as_err(self) -> (turned: Result<E, T>)
        ensures
            turned == self.turned(),
    ;
}

impl<T, E> OkAsError<T, E> for Result<T, E> {
    open spec fn turned(self) -> Result<E, T> {
        match self {
            Ok(ok) => Err(ok),
            Err(err) => Ok(err),
        }
    }

    fn ok_as_err(self) -> (turned: Result<E, T>) {
        match self {
            Ok(ok) => Err(ok),
            Err(err) => Ok(err),
        }
    }
}

/// Makes a result the outcome of a guard: success stays success, an error is a
/// failure, and nothing is ever passed on.
pub trait ResultAsOutcome<S, E, F> {
    /// The outcome.
    spec fn outcome(self) -> Outcome<S, E, F>;

    /// Makes the result an outcome.
    fn as_outcome(self) -> (outcome: Outcome<S, E, F>)
        ensures
            outcome == self.outcome(),
    ;
}

impl<S, E, F> ResultAsOutcome<S, E, F> for Result<S, E> {
    open spec fn outcome(self) -> Outcome<S, E, F> {
        match self {
            Ok(s) => Outcome::Success(s),
            Err(e) => Outcome::Failure(e),
        }
    }

    fn as_outcome(self) -> (outcome: Outcome<S, E, F>) {
        match self {
            Ok(s) => Outcome::Success(s),
            Err(e) => Outcome::Failure(e),
        }
    }
}

/// Turning a result around twice gives it back.
pub proof fn lemma_turned_twice<T, E>(result: Result<T, E>)
    ensures
        result.turned().turned() == result,
{
}

} // verus!
