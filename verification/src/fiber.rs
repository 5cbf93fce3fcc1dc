//! Fibers: the cooperative threads of the Tarantool runtime.

pub mod csw;
pub mod ffi;

use vstd::prelude::*;

pub use self::csw::{check_yield, YieldResult};

verus! {

/// Whether a call of the C fiber API succeeded, judged by the status it
/// returned: the API reports a failure by a negative status.
///
/// Setting a stack size fails on a negative status, and a wait on a condition
/// variable reports a timeout by one.
pub fn call_succeeded(rc: i32) -> (ok: bool)
    ensures
        ok <==> rc >= 0,
{
    !(rc < 0)
}

} // verus!
