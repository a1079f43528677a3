//! Bounded retry around a stub.
//!
//! After every attempt a predicate of the caller looks at the result and at
//! the number of attempts made so far. While it asks for more and the budget
//! of attempts is not used up, the same request goes to the stub again,
//! under the same context, so that all attempts together stay within the
//! deadline of the call. Otherwise the latest result is the result of the
//! call. Nothing is deduplicated: whether a request may be repeated is for
//! the caller to know.

use crate::context::Context;
use crate::error::RpcError;
use vstd::prelude::*;

verus! {

/// The rule of retry: after `attempts` attempts, the request is issued again
/// if and only if the predicate asks for it and the budget is not used up.
pub open spec fn reissues(budget: nat, attempts: nat, wants_retry: bool) -> bool {
    wants_retry && attempts < budget
}

/// The number of attempts that a call has made in the end, when `done`
/// attempts have been made so far and `verdicts[i]` is what the predicate
/// says after attempt `i + 1`.
pub open spec fn attempts_from(budget: nat, verdicts: Seq<bool>, done: nat) -> nat
    decreases budget - done,
{
    if 1 <= done <= verdicts.len() && reissues(budget, done, verdicts[done - 1]) {
        attempts_from(budget, verdicts, done + 1)
    } else {
        done
    }
}

/// The number of attempts that a call makes under the budget `budget` when
/// `verdicts[i]` is what the predicate says after attempt `i + 1`.
pub open spec fn attempts_made(budget: nat, verdicts: Seq<bool>) -> nat {
    attempts_from(budget, verdicts, 1)
}

/// Whether `history` is the course of a call under the budget `budget`: the
/// result of every attempt, each with what the predicate has said of it.
/// Every attempt has sent the same request under the same context, the
/// predicate has been asked after every attempt with the number of attempts
/// made so far, and the call has gone on after an attempt if and only if the
/// rule of retry says so.
pub open spec fn is_course<
    Req,
    Resp,
    S: Fn(Context, &Req) -> Result<Resp, RpcError>,
    P: Fn(&Result<Resp, RpcError>, u32) -> bool,
>(
    stub: S,
    should_retry: P,
    ctx: Context,
    request: &Req,
    budget: nat,
    history: Seq<(Result<Resp, RpcError>, bool)>,
) -> bool {
    &&& 1 <= history.len() <= budget
    &&& forall|i: int|
        0 <= i < history.len() ==> {
            &&& call_ensures(stub, (ctx, request), (#[trigger] history[i]).0)
            &&& call_ensures(should_retry, (&history[i].0, (i + 1) as u32), history[i].1)
            &&& reissues(budget, (i + 1) as nat, history[i].1) == (i + 1 < history.len())
        }
}

/// The retry layer: how many attempts a call may make.
#[derive(Clone, Copy, Debug, PartialEq, Eq, Structural)]
pub struct Retry {
    budget: u32,
}

/// The result of a call through the retry layer.
#[derive(Debug)]
pub struct Attempted<Resp> {
    /// The result of the last attempt.
    pub result: Result<Resp, RpcError>,
    /// How many attempts were made.
    pub attempts: u32,
}

impl Retry {
    /// A call makes at least its first attempt.
    #[verifier::type_invariant]
    pub closed spec fn wf(self) -> bool {
        self.budget >= 1
    }

    /// The most attempts that a call may make.
    pub closed spec fn limit(self) -> nat {
        self.budget as nat
    }

    /// A retry layer that allows `budget` attempts for a call; `None` where
    /// it would allow none.
    pub fn new(budget: u32) -> (retry: Option<Retry>)
        ensures
            retry.is_some() <==> budget >= 1,
            retry matches Some(r) ==> r.wf() && r.limit() == budget,
    {
        if budget >= 1 {
            Some(Retry { budget })
        } else {
            None
        }
    }

    /// The most attempts that a call may make.
    pub fn budget(&self) -> (budget: u32)
        ensures
            budget == self.limit(),
            budget >= 1,
    {
        proof {
            use_type_invariant(self);
        }
        self.budget
    }

    /// Whether the request is issued again after `attempts` attempts, the
    /// predicate having said `wants_retry` of the latest result.
    pub fn should_reissue(&self, attempts: u32, wants_retry: bool) -> (again: bool)
        ensures
            again == reissues(self.limit(), attempts as nat, wants_retry),
    {
        wants_retry && attempts < self.budget
    }

    /// Sends `request` to `stub` under `ctx`, again and again as long as
    /// `should_retry` asks for it and the budget allows.
    ///
    /// The call has a course as [`is_course`] describes it, as long as the
    /// number of attempts says, and its result is that of the last attempt.
    /// In particular: if the call has stopped short of the budget, the
    /// predicate has declined to go on after that result; and with a
    /// predicate that never declines, the budget is used up to the last
    /// attempt.
    pub fn call<Req, Resp, S, P>(&self, stub: S, should_retry: P, ctx: Context, request: &Req) -> (out:
        Attempted<Resp>) where
        S: Fn(Context, &Req) -> Result<Resp, RpcError>,
        P: Fn(&Result<Resp, RpcError>, u32) -> bool,

        requires
            call_requires(stub, (ctx, request)),
            forall|result: Result<Resp, RpcError>, attempts: u32|
                call_requires(should_retry, (&result, attempts)),
        ensures
            exists|history: Seq<(Result<Resp, RpcError>, bool)>| #[trigger]
                is_course(stub, should_retry, ctx, request, self.limit(), history) && history.len()
                    == out.attempts && history.last().0 == out.result,
            1 <= out.attempts <= self.limit(),
            call_ensures(stub, (ctx, request), out.result),
            out.attempts < self.limit() ==> call_ensures(
                should_retry,
                (&out.result, out.attempts),
                false,
            ),
            (forall|result: Result<Resp, RpcError>, attempts: u32, again: bool|
                call_ensures(should_retry, (&result, attempts), again) ==> again) ==> out.attempts
                == self.limit(),
    {
        let budget: u32 = self.budget();
        let mut attempts: u32 = 1;
        let mut result = stub(ctx, request);
        let ghost mut earlier: Seq<(Result<Resp, RpcError>, bool)> = Seq::empty();
        let ghost mut history: Seq<(Result<Resp, RpcError>, bool)> = Seq::empty();
        loop
            invariant_except_break
                1 <= attempts <= budget,
                call_ensures(stub, (ctx, request), result),
                earlier.len() == attempts - 1,
                forall|i: int|
                    0 <= i < earlier.len() ==> {
                        &&& call_ensures(stub, (ctx, request), (#[trigger] earlier[i]).0)
                        &&& call_ensures(should_retry, (&earlier[i].0, (i + 1) as u32), earlier[i].1)
                        &&& reissues(budget as nat, (i + 1) as nat, earlier[i].1)
                    },
            invariant
                budget == self.limit(),
                call_requires(stub, (ctx, request)),
                forall|result: Result<Resp, RpcError>, attempts: u32|
                    call_requires(should_retry, (&result, attempts)),
            ensures
                1 <= attempts <= budget,
                call_ensures(stub, (ctx, request), result),
                attempts < budget ==> call_ensures(should_retry, (&result, attempts), false),
                (forall|result: Result<Resp, RpcError>, attempts: u32, again: bool|
                    call_ensures(should_retry, (&result, attempts), again) ==> again) ==> attempts
                    == budget,
                is_course(stub, should_retry, ctx, request, budget as nat, history),
                history.len() == attempts,
                history.last().0 == result,
            decreases budget - attempts,
        {
            let wants_retry = should_retry(&result, attempts);
            if !self.should_reissue(attempts, wants_retry) {
                proof {
                    history = earlier.push((result, wants_retry));
                    assert forall|i: int| 0 <= i < history.len() implies {
                        &&& call_ensures(stub, (ctx, request), (#[trigger] history[i]).0)
                        &&& call_ensures(
                            should_retry,
                            (&history[i].0, (i + 1) as u32),
                            history[i].1,
                        )
                        &&& reissues(budget as nat, (i + 1) as nat, history[i].1) == (i + 1
                            < history.len())
                    } by {
                        if i < earlier.len() {
                            assert(history[i] == earlier[i]);
                        }
                    }
                }
                break ;
            }
            proof {
                let longer = earlier.push((result, wants_retry));
                assert forall|i: int| 0 <= i < longer.len() implies {
                    &&& call_ensures(stub, (ctx, request), (#[trigger] longer[i]).0)
                    &&& call_ensures(should_retry, (&longer[i].0, (i + 1) as u32), longer[i].1)
                    &&& reissues(budget as nat, (i + 1) as nat, longer[i].1)
                } by {
                    if i < earlier.len() {
                        assert(longer[i] == earlier[i]);
                    }
                }
                earlier = longer;
            }
            attempts = attempts + 1;
            result = stub(ctx, request);
        }
        Attempted { result, attempts }
    }
}

/// The course of a call is as long as the rule of retry makes it: where
/// `verdicts` holds what the predicate has said after each attempt of a
/// course of `attempts` attempts, that many attempts are made.
pub proof fn lemma_course_length(budget: nat, verdicts: Seq<bool>, attempts: nat)
    requires
        1 <= attempts <= verdicts.len(),
        forall|i: int|
            0 <= i < attempts ==> reissues(budget, (i + 1) as nat, #[trigger] verdicts[i]) == (i + 1
                < attempts),
    ensures
        attempts_made(budget, verdicts) == attempts,
{
    lemma_course_from(budget, verdicts, attempts, 1);
}

/// A course that has come to its attempt number `done` goes on to its last
/// attempt and stops there.
proof fn lemma_course_from(budget: nat, verdicts: Seq<bool>, attempts: nat, done: nat)
    requires
        1 <= done <= attempts <= verdicts.len(),
        forall|i: int|
            0 <= i < attempts ==> reissues(budget, (i + 1) as nat, #[trigger] verdicts[i]) == (i + 1
                < attempts),
    ensures
        attempts_from(budget, verdicts, done) == attempts,
    decreases attempts - done,
{
    assert(reissues(budget, done, verdicts[done - 1]) == (done < attempts));
    if done < attempts {
        lemma_course_from(budget, verdicts, attempts, done + 1);
    }
}

/// A call makes at least one attempt and never more than the budget.
pub proof fn lemma_attempts_are_bounded(budget: nat, verdicts: Seq<bool>, done: nat)
    requires
        1 <= done <= budget,
    ensures
        done <= attempts_from(budget, verdicts, done) <= budget,
    decreases budget - done,
{
    if 1 <= done <= verdicts.len() && reissues(budget, done, verdicts[done - 1]) {
        lemma_attempts_are_bounded(budget, verdicts, done + 1);
    }
}

/// While the predicate asks for more after every attempt, a call goes on to
/// the last attempt that the budget allows.
proof fn lemma_retry_goes_on(budget: nat, verdicts: Seq<bool>, done: nat)
    requires
        1 <= done <= budget,
        verdicts.len() >= budget,
        forall|i: int| 0 <= i < budget ==> verdicts[i],
    ensures
        attempts_from(budget, verdicts, done) == budget,
    decreases budget - done,
{
    if done < budget {
        lemma_retry_goes_on(budget, verdicts, done + 1);
    }
}

/// With a predicate that asks for more after every attempt, a call makes
/// exactly as many attempts as the budget allows, so that the result of the
/// call is that of the attempt numbered by the budget.
pub proof fn lemma_retry_uses_whole_budget(budget: nat, verdicts: Seq<bool>)
    requires
        budget >= 1,
        verdicts.len() >= budget,
        forall|i: int| 0 <= i < budget ==> verdicts[i],
    ensures
        attempts_made(budget, verdicts) == budget,
{
    lemma_retry_goes_on(budget, verdicts, 1);
}

/// A call stops at the first attempt after which the predicate declines.
pub proof fn lemma_retry_stops_when_declined(budget: nat, verdicts: Seq<bool>, done: nat)
    requires
        1 <= done <= verdicts.len(),
        !verdicts[done - 1],
    ensures
        attempts_from(budget, verdicts, done) == done,
{
}

} // verus!
