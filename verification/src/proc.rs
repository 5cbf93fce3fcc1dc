//! Stored procedures: the status a procedure hands back to the runtime and the
//! error it reports.
//!
//! A procedure's `ret` runs in two steps. First it decides whether there is a
//! value to send through the function context ([`result_ret_step`]); then,
//! from what the send returned, it settles its status and the error to set in
//! the runtime's diagnostics area ([`unwrap_or_report`] where the send's own
//! status is passed on, [`value_sent_outcome`] where a successful send means
//! status 0).

use vstd::prelude::*;

verus! {

/// A wrapper type for returning custom types from stored procedures: the
/// wrapped value itself is sent back encoded as MessagePack.
pub struct ReturnMsgpack<T>(pub T);

/// The error codes that stored procedures report with.
#[derive(Debug, Clone, Copy, PartialEq, Eq)]
pub enum ErrorCode {
    /// An error raised by a stored procedure written in C or Rust.
    ProcC,
}

/// The status a stored procedure returns to the runtime when it succeeded.
pub const PROC_OK: i32 = 0;

/// The status a stored procedure returns to the runtime when it failed.
pub const PROC_FAILED: i32 = -1;

/// The report of a failure: a [`ErrorCode::ProcC`] error carrying `e`.
pub open spec fn proc_error<E>(e: E) -> Option<(ErrorCode, E)> {
    Some((ErrorCode::ProcC, e))
}

/// The status and the report of a procedure whose outcome is `res`: a success
/// passes its status on and reports nothing; a failure returns
/// [`PROC_FAILED`] and reports its error as a `ProcC` error.
pub open spec fn reported_outcome<E>(res: Result<i32, E>) -> (i32, Option<(ErrorCode, E)>) {
    match res {
        Ok(code) => (code, None),
        Err(e) => (PROC_FAILED, proc_error(e)),
    }
}

/// Turns the outcome of a stored procedure into the status it returns and the
/// error that is to be set in the runtime's diagnostics area.
///
/// This settles the sends of a tuple, of raw bytes, of a buffer and of a
/// MessagePack encoding, given what the send returned; and a `Result` of a
/// tuple, bytes or buffer, given the status of the inner value's own `ret`.
pub fn unwrap_or_report<E>(res: Result<i32, E>) -> (out: (i32, Option<(ErrorCode, E)>))
    ensures
        out == reported_outcome(res),
{
    match res {
        Ok(code) => (code, None),
        Err(e) => (PROC_FAILED, Some((ErrorCode::ProcC, e))),
    }
}

/// What a `ret` does next with the function context.
#[derive(Debug, PartialEq, Eq)]
pub enum RetStep<V, E> {
    /// Send this value through the context, then settle the status from what
    /// the send returned.
    Send(V),
    /// Return this status and set this error; the context is not used.
    Finish(i32, Option<(ErrorCode, E)>),
}

/// The first step of the `ret` of a `Result`: an `Ok` value is sent, an
/// error is reported at once and nothing is sent.
pub open spec fn result_ret_step_of<V, E>(res: Result<V, E>) -> RetStep<V, E> {
    match res {
        Ok(v) => RetStep::Send(v),
        Err(e) => RetStep::Finish(PROC_FAILED, proc_error(e)),
    }
}

/// Decides the first step of the `ret` of a `Result`.
pub fn result_ret_step<V, E>(res: Result<V, E>) -> (step: RetStep<V, E>)
    ensures
        step == result_ret_step_of(res),
{
    match res {
        Ok(v) => RetStep::Send(v),
        Err(e) => RetStep::Finish(PROC_FAILED, Some((ErrorCode::ProcC, e))),
    }
}

/// The status and report of the `ret` of a `Result` of a serializable value,
/// once its value was encoded: a successful encoding gives [`PROC_OK`],
/// whatever status it came with; a failed one is reported as a `ProcC` error.
pub open spec fn value_sent_outcome_of<E>(sent: Result<i32, E>) -> (i32, Option<(ErrorCode, E)>) {
    match sent {
        Ok(_) => (PROC_OK, None),
        Err(e) => (PROC_FAILED, proc_error(e)),
    }
}

/// Settles the `ret` of a `Result` of a serializable value from what the
/// MessagePack encoding of its value returned.
pub fn value_sent_outcome<E>(sent: Result<i32, E>) -> (out: (i32, Option<(ErrorCode, E)>))
    ensures
        out == value_sent_outcome_of(sent),
{
    match sent {
        Ok(_) => (PROC_OK, None),
        Err(e) => (PROC_FAILED, Some((ErrorCode::ProcC, e))),
    }
}

/// The whole `ret` of a `Result` of a serializable value: `Err(e)` is the
/// procedure's own error (nothing was sent), `Ok(sent)` is what the encoding
/// of its `Ok` value returned.
pub open spec fn result_ret_outcome_of<E>(res: Result<Result<i32, E>, E>) -> (i32, Option<(ErrorCode, E)>) {
    match res {
        Ok(Ok(_)) => (PROC_OK, None),
        Ok(Err(e)) => (PROC_FAILED, proc_error(e)),
        Err(e) => (PROC_FAILED, proc_error(e)),
    }
}

/// Settles the whole `ret` of a `Result` of a serializable value.
pub fn result_ret_outcome<E>(res: Result<Result<i32, E>, E>) -> (out: (i32, Option<(ErrorCode, E)>))
    ensures
        out == result_ret_outcome_of(res),
{
    match res {
        Ok(sent) => value_sent_outcome(sent),
        Err(e) => (PROC_FAILED, Some((ErrorCode::ProcC, e))),
    }
}

/// A procedure that failed is never reported as a success: its status is
/// [`PROC_FAILED`] and its error is reported unchanged as a `ProcC` error.
/// One that succeeded passes its status on and reports no error.
pub proof fn lemma_failure_is_always_reported<E>(res: Result<i32, E>)
    ensures
        res is Err ==> reported_outcome(res) == (PROC_FAILED, Some((ErrorCode::ProcC, res->Err_0))),
        res is Ok ==> reported_outcome(res) == (res->Ok_0, None::<(ErrorCode, E)>),
{
}

/// The `ret` of a `Result` of a serializable value is its two steps: the
/// decision whether to send, then the settling of the send's outcome. On an
/// error nothing is sent and the error is reported as a `ProcC` error; on a
/// value the status is [`PROC_OK`] exactly when the encoding succeeded, and
/// otherwise the encoding's error is reported.
pub proof fn lemma_result_ret_is_its_steps<V, E>(res: Result<V, E>, sent: Result<i32, E>)
    ensures
        ({
            let whole = match res {
                Ok(_) => Ok(sent),
                Err(e) => Err(e),
            };
            match result_ret_step_of(res) {
                RetStep::Send(v) => res == Ok::<V, E>(v) && result_ret_outcome_of(whole)
                    == value_sent_outcome_of(sent),
                RetStep::Finish(code, report) => res is Err && (code, report)
                    == result_ret_outcome_of(whole),
            }
        }),
        res is Err ==> result_ret_step_of(res) == RetStep::Finish::<V, E>(
            PROC_FAILED,
            Some((ErrorCode::ProcC, res->Err_0)),
        ),
        value_sent_outcome_of(sent).0 == PROC_OK <==> sent is Ok,
        sent is Err ==> value_sent_outcome_of(sent).1 == Some((ErrorCode::ProcC, sent->Err_0)),
{
}

} // verus!
