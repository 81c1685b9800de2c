//! One logical call is sent to every configured endpoint at once. The first
//! endpoint to answer with a success decides the call; when every endpoint
//! has failed, the failure that arrived last is the one reported.
//!
//! The policy is a state machine, [`Race`], that is fed each completion as it
//! arrives and says whether the call is decided. Completions that arrive
//! after the decision can no longer be fed to it: that is how they stay
//! unobserved.

use crate::error::HttpCallError;
use crate::list::reversed;
use vstd::prelude::*;

verus! {

/// `i` is the position of the first success among `completions`, which are
/// in the order in which they arrived.
pub open spec fn is_first_success<T, E>(completions: Seq<Result<T, E>>, i: int) -> bool {
    &&& 0 <= i < completions.len()
    &&& completions[i] is Ok
    &&& forall|j: int| 0 <= j < i ==> completions[j] is Err
}

/// No completion is a success.
pub open spec fn all_failed<T, E>(completions: Seq<Result<T, E>>) -> bool {
    forall|i: int| 0 <= i < completions.len() ==> completions[i] is Err
}

/// `outcome` is what a race over `completions` reports: the first success
/// where there is one, the last failure where there is none.
pub open spec fn is_outcome<T, E>(completions: Seq<Result<T, E>>, outcome: Result<T, E>) -> bool {
    &&& completions.len() > 0
    &&& forall|i: int| is_first_success(completions, i) ==> outcome == completions[i]
    &&& all_failed(completions) ==> outcome == completions.last()
}

/// What one completion does to a race with `pending` calls in flight:
/// `Some` with the outcome where it decides the race, `None` where the race
/// goes on with one call fewer.
pub open spec fn decides<T, E>(pending: nat, completion: Result<T, E>) -> Option<Result<T, E>> {
    if completion is Ok || pending <= 1 {
        Some(completion)
    } else {
        None
    }
}

/// A race over `calls` calls can be started: there is at least one call.
/// Over no calls there is nothing that could ever decide a race.
pub open spec fn startable(calls: nat) -> bool {
    calls > 0
}

/// A race that is not decided yet. At least one call is still in flight.
pub struct Race {
    pending: usize,
}

/// What a race has come to after a completion.
pub enum Progress<T> {
    /// Undecided: the calls that are left are still awaited.
    Waiting(Race),
    /// Decided: this is the one outcome of the logical call. The calls that
    /// are left are abandoned.
    Done(Result<T, HttpCallError>),
}

impl Race {
    #[verifier::type_invariant]
    spec fn in_flight(&self) -> bool {
        self.pending >= 1
    }

    /// The number of calls in flight.
    pub closed spec fn spec_pending(&self) -> nat {
        self.pending as nat
    }

    /// A race over `calls` calls, all in flight. There is no race over no
    /// calls: nothing could ever decide it.
    pub fn start(calls: usize) -> (r: Option<Race>)
        ensures
            r is Some <==> startable(calls as nat),
            r matches Some(race) ==> race.spec_pending() == calls,
    {
        if calls == 0 {
            None
        } else {
            Some(Race { pending: calls })
        }
    }

    /// The number of calls in flight.
    pub fn pending(&self) -> (n: usize)
        ensures
            n == self.spec_pending(),
            n >= 1,
    {
        proof {
            use_type_invariant(self);
        }
        self.pending
    }

    /// Takes the completion of one call in flight. A success decides the
    /// race at once. A failure decides it only when no other call is in
    /// flight; otherwise the failure is dropped and the race goes on.
    pub fn observe<T>(self, completion: Result<T, HttpCallError>) -> (r: Progress<T>)
        ensures
            match r {
                Progress::Waiting(next) => decides(self.spec_pending(), completion) is None
                    && next.spec_pending() == self.spec_pending() - 1,
                Progress::Done(outcome) => decides(self.spec_pending(), completion) == Some(
                    outcome,
                ),
            },
    {
        proof {
            use_type_invariant(&self);
        }
        match completion {
            Ok(value) => Progress::Done(Ok(value)),
            Err(failure) => {
                if self.pending == 1 {
                    Progress::Done(Err(failure))
                } else {
                    Progress::Waiting(Race { pending: self.pending - 1 })
                }
            },
        }
    }
}

/// Runs the race over the completions of every call, given in the order in
/// which the calls completed, and returns its outcome: the first success, or
/// the last failure where every call failed. What follows the first success
/// is dropped unread.
pub fn exec_calls<T>(completions: Vec<Result<T, HttpCallError>>) -> (r: Result<T, HttpCallError>)
    requires
        completions@.len() > 0,
    ensures
        is_outcome(completions@, r),
{
    let ghost all = completions@;
    let total = completions.len();
    let mut rest = reversed(completions);
    let mut race = Race::start(total).unwrap();
    loop
        invariant
            all == completions@,
            0 < rest@.len() <= all.len(),
            rest@.len() == race.spec_pending(),
            rest@ == all.reverse().subrange(0, rest@.len() as int),
            forall|j: int| 0 <= j < all.len() - rest@.len() ==> all[j] is Err,
        decreases rest@.len(),
    {
        let ghost at = all.len() - rest@.len();
        let completion = rest.pop().unwrap();
        assert(completion == all[at]);
        match race.observe(completion) {
            Progress::Waiting(next) => {
                race = next;
            },
            Progress::Done(outcome) => {
                assert(outcome == all[at]);
                assert(outcome is Ok ==> is_first_success(all, at));
                assert(outcome is Err ==> at == all.len() - 1);
                assert forall|i: int| is_first_success(all, i) implies outcome == all[i] by {
                    if i < at {
                        assert(all[i] is Err);
                    } else if i > at {
                        assert(all[at] is Err);
                    }
                }
                return outcome;
            },
        }
    }
}

/// A race over a single call reports what that call came to.
pub proof fn lemma_single_call<T, E>(completion: Result<T, E>)
    ensures
        decides(1, completion) == Some(completion),
        forall|outcome: Result<T, E>|
            is_outcome(seq![completion], outcome) <==> outcome == completion,
{
    let s = seq![completion];
    assert forall|outcome: Result<T, E>| is_outcome(s, outcome) implies outcome == completion by {
        if completion is Ok {
            assert(is_first_success(s, 0));
        } else {
            assert(all_failed(s));
            assert(s.last() == completion);
        }
    }
    assert(is_outcome(s, completion)) by {
        assert forall|i: int| is_first_success(s, i) implies completion == s[i] by {}
    }
}

/// Every race with at least one completion has exactly one outcome.
pub proof fn lemma_outcome_unique<T, E>(
    completions: Seq<Result<T, E>>,
    a: Result<T, E>,
    b: Result<T, E>,
)
    requires
        is_outcome(completions, a),
        is_outcome(completions, b),
    ensures
        a == b,
{
    if !all_failed(completions) {
        lemma_first_success_found(completions, 0);
    }
}

/// Where some completion at or after `from` is a success and none before
/// `from` is, `first_success` finds the first success of the race.
proof fn lemma_first_success_found<T, E>(completions: Seq<Result<T, E>>, from: int)
    requires
        0 <= from,
        forall|j: int| 0 <= j < from && j < completions.len() ==> completions[j] is Err,
        !all_failed(completions),
    ensures
        is_first_success(completions, first_success(completions, from)),
    decreases completions.len() - from,
{
    if from < completions.len() && completions[from] is Err {
        lemma_first_success_found(completions, from + 1);
    }
}

/// The position of the first success at or after `from`, where there is one.
pub open spec fn first_success<T, E>(completions: Seq<Result<T, E>>, from: int) -> int
    decreases completions.len() - from,
{
    if from >= completions.len() {
        from
    } else if completions[from] is Ok {
        from
    } else {
        first_success(completions, from + 1)
    }
}

/// Where the first success of a race lies, nothing that completed after it
/// bears on the outcome: not a later success, not a later failure, and not
/// whether anything completed later at all.
pub proof fn lemma_first_success_wins<T, E>(
    completions: Seq<Result<T, E>>,
    i: int,
    later: Seq<Result<T, E>>,
    outcome: Result<T, E>,
)
    requires
        is_first_success(completions, i),
        is_outcome(completions, outcome),
    ensures
        outcome == completions[i],
        is_outcome(completions.subrange(0, i + 1) + later, outcome),
{
    let other = completions.subrange(0, i + 1) + later;
    assert(other[i] == completions[i]);
    assert forall|k: int| is_first_success(other, k) implies outcome == other[k] by {
        if k < i {
            assert(other[k] == completions[k]);
        } else if k > i {
            assert(other[i] is Err);
        }
    }
    assert(!all_failed(other));
}

/// Where every call fails, the failure that completed last is the outcome,
/// whatever failed before it.
pub proof fn lemma_last_failure_reported<T, E>(
    completions: Seq<Result<T, E>>,
    outcome: Result<T, E>,
)
    requires
        all_failed(completions),
        is_outcome(completions, outcome),
    ensures
        outcome == completions.last(),
        outcome is Err,
{
}

/// No outcome exists for a race without calls, and none can be started.
pub proof fn lemma_no_calls_no_outcome<T, E>(outcome: Result<T, E>)
    ensures
        !is_outcome(Seq::<Result<T, E>>::empty(), outcome),
{
}

} // verus!
