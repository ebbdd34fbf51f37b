//! What a client does when the answer to one of its requests arrives.
use crate::poll::PollError;
use vstd::prelude::*;

verus! {

/// What became of a request whose answer arrived (or whose channel closed).
#[derive(Debug, Clone, Copy, PartialEq, Eq, Structural)]
pub enum ResponseOutcome {
    /// The answer never came: the connection's side of the channel is gone.
    Lost,
    /// The server answered with a failure.
    Rejected,
    /// The server answered with success.
    Accepted,
}

/// The outcome of a request, given what polling its answer gave and, when an
/// answer came, whether it was a success.
pub open spec fn outcome_of(answer: Result<bool, PollError>) -> ResponseOutcome {
    match answer {
        Err(_) => ResponseOutcome::Lost,
        Ok(false) => ResponseOutcome::Rejected,
        Ok(true) => ResponseOutcome::Accepted,
    }
}

/// Sorts the arrival of an answer: lost, rejected or accepted.
pub fn response_outcome(answer: Result<bool, PollError>) -> (res: ResponseOutcome)
    ensures
        res == outcome_of(answer),
{
    match answer {
        Err(_) => ResponseOutcome::Lost,
        Ok(false) => ResponseOutcome::Rejected,
        Ok(true) => ResponseOutcome::Accepted,
    }
}

/// How many new requests keep one outstanding: with `outstanding` requests
/// in flight or done, as many as bring the count up to one (`count..1`).
pub open spec fn needed_to_reach_one(outstanding: int) -> int {
    if outstanding < 1 {
        1 - outstanding
    } else {
        0
    }
}

/// How many to start so that at least one exists, given how many are under
/// way and how many are done: one when there are none, else none.
pub fn to_start(under_way: usize, done: usize) -> (res: usize)
    requires
        under_way + done <= usize::MAX,
    ensures
        res == needed_to_reach_one(under_way + done),
{
    let count = under_way + done;
    if count < 1 {
        1 - count
    } else {
        0
    }
}

} // verus!
