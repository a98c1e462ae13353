//! Retrying system calls that a signal interrupted.
use vstd::prelude::*;

use crate::errno::{Errno, EINTR};

verus! {

/// Whether `outcome` is the error `EINTR`: the call was interrupted by a
/// signal before it completed and may be made again.
pub open spec fn interrupted<R>(outcome: Result<R, Errno>) -> bool {
    outcome matches Err(e) && e.0 == EINTR
}

/// Decides what to do with the outcome of a call that may be interrupted:
/// `None` when the outcome is `EINTR` and the call is to be made again,
/// and otherwise the outcome itself, unchanged (errors other than `EINTR`
/// included).
pub fn retry_on_eintr<R>(outcome: Result<R, Errno>) -> (decision: Option<Result<R, Errno>>)
    ensures
        interrupted(outcome) ==> decision is None,
        !interrupted(outcome) ==> decision == Some(outcome),
        decision is None <==> (outcome matches Err(e) && e.0 == 4),
{
    match outcome {
        Err(errno) if errno.0 == EINTR => None,
        other => Some(other),
    }
}

/// Only the error number 4 (`EINTR`) counts as an interruption: every
/// success, and every other error, is an outcome to pass on unchanged.
pub proof fn lemma_only_eintr_interrupts<R>(outcome: Result<R, Errno>)
    ensures
        interrupted(outcome) <==> (outcome matches Err(e) && e.0 == 4),
        (outcome matches Err(e) && e.0 != 4) ==> !interrupted(outcome),
        outcome is Ok ==> !interrupted(outcome),
{
}

/// What a caller that retries on `EINTR` ends up with when its calls have
/// the outcomes `outcomes`, one after another: the first outcome that is
/// not `EINTR`, or `None` while every outcome so far was `EINTR`.
pub open spec fn retried<R>(outcomes: Seq<Result<R, Errno>>) -> Option<Result<R, Errno>>
    decreases outcomes.len(),
{
    if outcomes.len() == 0 {
        None
    } else if interrupted(outcomes[0]) {
        retried(outcomes.drop_first())
    } else {
        Some(outcomes[0])
    }
}

/// Retrying on `EINTR` calls again until a call succeeds or fails with
/// another error, and gives back that outcome unchanged: the outcome is one
/// of the calls', it is not `EINTR`, and every call before it was
/// interrupted.
pub proof fn lemma_retried_is_first_uninterrupted<R>(outcomes: Seq<Result<R, Errno>>)
    ensures
        retried(outcomes) matches Some(outcome) ==> !interrupted(outcome) && exists|k: int|
            0 <= k < outcomes.len() && outcomes[k] == outcome && forall|j: int|
                0 <= j < k ==> interrupted(#[trigger] outcomes[j]),
        retried(outcomes) is None ==> forall|j: int|
            0 <= j < outcomes.len() ==> interrupted(#[trigger] outcomes[j]),
    decreases outcomes.len(),
{
    if outcomes.len() > 0 {
        let rest = outcomes.drop_first();
        if interrupted(outcomes[0]) {
            lemma_retried_is_first_uninterrupted(rest);
            if let Some(outcome) = retried(outcomes) {
                let k = choose|k: int|
                    0 <= k < rest.len() && rest[k] == outcome && forall|j: int|
                        0 <= j < k ==> interrupted(#[trigger] rest[j]);
                assert(outcomes[k + 1] == outcome);
                assert forall|j: int| 0 <= j < k + 1 implies interrupted(#[trigger] outcomes[j]) by {
                    if j > 0 {
                        assert(outcomes[j] == rest[j - 1]);
                    }
                }
            } else {
                assert forall|j: int| 0 <= j < outcomes.len() implies interrupted(
                    #[trigger] outcomes[j],
                ) by {
                    if j > 0 {
                        assert(outcomes[j] == rest[j - 1]);
                    }
                }
            }
        } else {
            assert(outcomes[0] == retried(outcomes).unwrap());
        }
    }
}

} // verus!
