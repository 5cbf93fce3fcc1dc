//! Context switch tracking: whether a call made the calling fiber yield.

use vstd::prelude::*;

verus! {

/// Possible [`check_yield`] results.
#[derive(Debug, PartialEq, Eq)]
pub enum YieldResult<T> {
    /// The function didn't yield.
    DidntYield(T),
    /// The function did yield.
    Yielded(T),
}

impl<T> YieldResult<T> {
    /// The value that the checked function returned.
    pub open spec fn value(self) -> T {
        match self {
            YieldResult::DidntYield(v) => v,
            YieldResult::Yielded(v) => v,
        }
    }

    /// Whether the fiber switched context during the call.
    pub open spec fn did_yield(self) -> bool {
        self is Yielded
    }
}

/// The outcome of a call that returned `res`, given the context switch count of
/// the calling fiber before (`before`) and after (`after`) the call.
pub open spec fn yield_outcome_of<T>(before: i32, after: i32, res: T) -> YieldResult<T> {
    if after == before {
        YieldResult::DidntYield(res)
    } else {
        YieldResult::Yielded(res)
    }
}

/// Classifies a finished call: it yielded exactly when the context switch
/// count of the fiber changed across the call.
pub fn yield_outcome<T>(before: i32, after: i32, res: T) -> (out: YieldResult<T>)
    ensures
        out == yield_outcome_of(before, after, res),
{
    if after == before {
        YieldResult::DidntYield(res)
    } else {
        YieldResult::Yielded(res)
    }
}

/// The outcome of a call always carries the called function's value unchanged,
/// and it reports a yield exactly when the context switch count differs
/// between the two readings.
pub proof fn lemma_outcome_keeps_value_and_reports_switch<T>(before: i32, after: i32, res: T)
    ensures
        yield_outcome_of(before, after, res).value() == res,
        yield_outcome_of(before, after, res).did_yield() <==> before != after,
{
}

/// Calls a function and checks whether it yielded.
///
/// `csw` reads the number of context switches of the calling fiber. The body
/// reads it once before and once after `f` runs; the contract states that the
/// result is the outcome for two readings that `csw` can return and the value
/// that `f` returned, and does not fix when the readings were taken.
pub fn check_yield<C, F, T>(csw: &C, f: F) -> (out: YieldResult<T>)
    where
        C: Fn() -> i32,
        F: FnOnce() -> T,
    requires
        call_requires(*csw, ()),
        call_requires(f, ()),
    ensures
        exists|before: i32, res: T, after: i32|
            {
                &&& call_ensures(*csw, (), before)
                &&& call_ensures(f, (), res)
                &&& call_ensures(*csw, (), after)
                &&& out == yield_outcome_of(before, after, res)
            },
{
    let csw_before = csw();
    let res = f();
    let csw_after = csw();
    yield_outcome(csw_before, csw_after, res)
}

} // verus!
