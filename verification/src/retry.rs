//! Retries of the routes of a service profile, within a budget.

use crate::breaker::failing;
use crate::classify::Class;
use vstd::prelude::*;

verus! {

/// Requests of up to 64 KiB are kept so that they can be sent again.
pub const MAX_BUFFERED_BYTES: usize = 65536;

/// How often a request was sent again.
#[derive(Clone, Copy, Debug, PartialEq, Eq, Structural)]
pub struct RetryCount(pub u32);

/// What a route says of retries.
#[derive(Debug)]
pub struct Params<B> {
    pub budget: B,
    pub max_per_request: Option<u32>,
}

/// How often a request may be sent again, without limit if `max_per_request` is not given.
#[derive(Clone, Copy, Debug)]
pub struct RetryPolicy {
    pub max_per_request: Option<u32>,
}

/// What is asked of the budget of retries.
#[derive(Clone, Copy, Debug, PartialEq, Eq, Structural)]
pub enum BudgetOp {
    /// The request is done. It pays for retries of others.
    Deposit,
    /// The request is sent again if the budget allows a withdrawal.
    Withdraw,
}

impl RetryPolicy {
    /// The policy of a route, and the budget that it draws on. A route that says nothing of retries
    /// has none.
    pub fn new_policy<B>(params: Option<Params<B>>) -> (r: Option<(RetryPolicy, B)>)
        ensures
            r == match params {
                Some(p) => Some((RetryPolicy { max_per_request: p.max_per_request }, p.budget)),
                None => None,
            },
    {
        match params {
            Some(p) => Some((RetryPolicy { max_per_request: p.max_per_request }, p.budget)),
            None => None,
        }
    }

    /// Whether the request was sent again as often as it may be. A request without a count has
    /// been sent once.
    pub open spec fn exhausted(self, count: Option<RetryCount>) -> bool {
        match (self.max_per_request, count) {
            (Some(max), Some(RetryCount(n))) => n >= max,
            _ => false,
        }
    }

    /// Decides on a request, from the class of the response to it (none after an error), whether
    /// the request was too long to keep, and how often it was sent again.
    pub fn retry(&self, rsp: Option<Class>, is_capped: bool, count: Option<RetryCount>) -> (op:
        BudgetOp)
        ensures
            op == if rsp is Some && !rsp->0.success() && !is_capped && !self.exhausted(count) {
                BudgetOp::Withdraw
            } else {
                BudgetOp::Deposit
            },
            is_capped || rsp is None ==> op is Deposit,
            rsp matches Some(class) ==> (!failing(class) ==> op is Deposit),
            rsp matches Some(class) ==> (failing(class) && !is_capped && (count is None
                || self.max_per_request is None) ==> op is Withdraw),
            rsp matches Some(class) ==> (count matches Some(RetryCount(n)) ==> (self.max_per_request
                matches Some(max) ==> (failing(class) && !is_capped ==> (op is Withdraw <==> n
                < max)))),
    {
        let retryable = match rsp {
            None => false,
            Some(class) => {
                let is_failure = class.is_failure();
                let exceeded_max_retries = match (self.max_per_request, count) {
                    (Some(max_retries), Some(RetryCount(retries))) => retries >= max_retries,
                    _ => false,
                };
                is_failure && !is_capped && !exceeded_max_retries
            },
        };
        if !retryable {
            return BudgetOp::Deposit;
        }
        BudgetOp::Withdraw
    }

    /// The count of a request that is sent again. It is kept only where there is a limit.
    pub fn next_count(&self, count: Option<RetryCount>) -> (r: Option<RetryCount>)
        requires
            self.max_per_request is Some ==> (count matches Some(RetryCount(n)) ==> n < u32::MAX),
        ensures
            r == self.counted(count),
    {
        match self.max_per_request {
            Some(_) => match count {
                Some(RetryCount(prev)) => Some(RetryCount(prev + 1)),
                None => Some(RetryCount(1)),
            },
            None => None,
        }
    }

    /// One more than before, where there is a limit.
    pub open spec fn counted(self, count: Option<RetryCount>) -> Option<RetryCount> {
        match (self.max_per_request, count) {
            (Some(_), Some(RetryCount(n))) => Some(RetryCount((n + 1) as u32)),
            (Some(_), None) => Some(RetryCount(1)),
            (None, _) => None,
        }
    }
}

/// Whether a request is sent again, once the budget was asked: only if a withdrawal was asked for
/// and it succeeded.
pub fn sent_again(op: BudgetOp, withdrew: bool) -> (b: bool)
    ensures
        b == (op == BudgetOp::Withdraw && withdrew),
{
    match op {
        BudgetOp::Deposit => false,
        BudgetOp::Withdraw => withdrew,
    }
}

/// What the metrics of a route are told of a request: nothing of one that is done, and of one that
/// could be sent again whether the budget allowed it.
pub fn retryable_metric(op: BudgetOp, withdrew: bool) -> (r: Option<bool>)
    ensures
        r == match op {
            BudgetOp::Deposit => None,
            BudgetOp::Withdraw => Some(withdrew),
        },
{
    match op {
        BudgetOp::Deposit => None,
        BudgetOp::Withdraw => Some(withdrew),
    }
}

/// No request is sent again more often than the limit, which is at least one: whenever one more
/// retry is allowed, the count after it is within the limit.
pub proof fn retries_stay_within_limit(policy: RetryPolicy, count: Option<RetryCount>)
    requires
        policy.max_per_request is Some,
        policy.max_per_request->0 >= 1,
        !policy.exhausted(count),
    ensures
        policy.counted(count) matches Some(RetryCount(n)) && 1 <= n <= policy.max_per_request->0,
{
}

/// A request is sent again as often as the limit says: it is exhausted exactly if it was sent again
/// that often, and never where there is no limit. Each retry counts for one.
pub proof fn limit_counts_retries(max: u32, n: u32)
    ensures
        ({
            let limited = RetryPolicy { max_per_request: Some(max) };
            &&& limited.exhausted(Some(RetryCount(n))) <==> n >= max
            &&& !limited.exhausted(None)
            &&& limited.counted(None) == Some(RetryCount(1))
            &&& n < u32::MAX ==> limited.counted(Some(RetryCount(n))) == Some(
                RetryCount((n + 1) as u32),
            )
        }),
        ({
            let unlimited = RetryPolicy { max_per_request: None };
            &&& !unlimited.exhausted(Some(RetryCount(n)))
            &&& !unlimited.exhausted(None)
            &&& unlimited.counted(Some(RetryCount(n))) is None
            &&& unlimited.counted(None) is None
        }),
{
}

} // verus!
