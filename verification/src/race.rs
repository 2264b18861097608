//! The race between an operation and its deadline. Whichever of the two
//! completes first wins, and the other is abandoned: a result that the
//! operation might still have had is never seen.
//!
//! Racing is for the driver, which has the timer. What the outcome of a
//! race means for the session is decided here.

use vstd::prelude::*;
use crate::error::Error;

verus! {

/// Which of two things completed first, with what it yielded.
#[derive(Debug, Clone, Copy, PartialEq, Eq)]
pub enum FirstOrSecond<A, B> {
    /// The first completed before the second.
    First(A),
    /// The second completed before the first.
    Second(B),
}

/// What a race between an operation, run first, and its timer means: the
/// operation's own result if it completed in time, `Error::Timeout` if
/// the timer did.
pub open spec fn timed<V>(outcome: FirstOrSecond<Result<V, Error>, ()>) -> Result<V, Error> {
    match outcome {
        FirstOrSecond::First(result) => result,
        FirstOrSecond::Second(_) => Err(Error::Timeout),
    }
}

/// The result of an operation that was raced against its timer.
pub fn wait_timeout<V>(outcome: FirstOrSecond<Result<V, Error>, ()>) -> (result: Result<V, Error>)
    ensures
        result == timed(outcome),
{
    match outcome {
        FirstOrSecond::First(result) => result,
        FirstOrSecond::Second(_) => Err(Error::Timeout),
    }
}

/// When the timer wins, the result is `Error::Timeout` whatever the
/// operation would have yielded; when the operation wins, its result is
/// kept as it is.
pub proof fn lemma_timer_wins<V>(result: Result<V, Error>)
    ensures
        timed::<V>(FirstOrSecond::Second(())) == Err::<V, Error>(Error::Timeout),
        timed(FirstOrSecond::<Result<V, Error>, ()>::First(result)) == result,
{
}

} // verus!
