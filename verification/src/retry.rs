//! The retry policy of the fetch helper: a fixed number of attempts with a
//! fixed delay between them, then a typed failure.
use vstd::prelude::*;
use vstd::string::*;

verus! {

/// How many fetch attempts are made before giving up.
pub const MAX_FETCH_ATTEMPTS: u32 = 20;

/// How long, in milliseconds, the helper waits between attempts.
pub const RETRY_DELAY_MS: u32 = 100;

/// What the fetch loop does next.
#[derive(Clone, Copy, Debug, PartialEq, Eq, Structural)]
pub enum FetchStep {
    Done,
    Retry(u32),
    GiveUp,
}

/// Decides the fetch loop's next step from the attempts made so far and
/// the latest outcome: stop on success, retry after the fixed delay while
/// attempts remain, give up at the attempt ceiling.
pub fn next_fetch_action(attempts_made: u32, succeeded: bool) -> (r: FetchStep)
    ensures
        succeeded ==> r is Done,
        !succeeded && attempts_made < MAX_FETCH_ATTEMPTS ==> r == FetchStep::Retry(RETRY_DELAY_MS),
        !succeeded && attempts_made >= MAX_FETCH_ATTEMPTS ==> r is GiveUp,
{
    if succeeded {
        FetchStep::Done
    } else if attempts_made < MAX_FETCH_ATTEMPTS {
        FetchStep::Retry(RETRY_DELAY_MS)
    } else {
        FetchStep::GiveUp
    }
}

/// The message reported when every attempt failed.
pub fn give_up_message() -> (r: String)
    ensures
        r@ == "API error. Please retry again soon."@,
{
    "API error. Please retry again soon.".to_owned()
}

/// The policy never runs forever: however the outcomes fall, a loop that
/// counts its attempts sees `GiveUp` as soon as the count reaches the
/// ceiling, and the ceiling is fixed.
pub proof fn lemma_retry_bounded(attempts_made: u32, succeeded: bool, r: FetchStep)
    requires
        succeeded ==> r is Done,
        !succeeded && attempts_made < MAX_FETCH_ATTEMPTS ==> r == FetchStep::Retry(RETRY_DELAY_MS),
        !succeeded && attempts_made >= MAX_FETCH_ATTEMPTS ==> r is GiveUp,
    ensures
        attempts_made >= MAX_FETCH_ATTEMPTS ==> (r is Done || r is GiveUp),
        r is Retry ==> attempts_made < MAX_FETCH_ATTEMPTS && r->Retry_0 == RETRY_DELAY_MS,
{
}

} // verus!
