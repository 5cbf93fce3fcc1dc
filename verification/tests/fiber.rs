use std::cell::Cell;

use tarantool::fiber::csw::yield_outcome;
use tarantool::fiber::{call_succeeded, check_yield, YieldResult};
use tarantool::proc::{
    result_ret_outcome, result_ret_step, unwrap_or_report, value_sent_outcome, ErrorCode, RetStep,
    ReturnMsgpack, PROC_FAILED, PROC_OK,
};

#[test]
fn check_yield_without_switch() {
    let counter = || 7;
    assert_eq!(check_yield(&counter, || 42), YieldResult::DidntYield(42));
}

#[test]
fn check_yield_with_switch() {
    let switches = Cell::new(0);
    let counter = || switches.get();
    let res = check_yield(&counter, || {
        switches.set(switches.get() + 1);
        "done"
    });
    assert_eq!(res, YieldResult::Yielded("done"));
}

#[test]
fn check_yield_unit_result() {
    let switches = Cell::new(3);
    let counter = || switches.get();
    let res = check_yield(&counter, || switches.set(4));
    assert_eq!(res, YieldResult::Yielded(()));
}

#[test]
fn check_yield_runs_function_once() {
    let calls = Cell::new(0u32);
    let counter = || 1;
    let res = check_yield(&counter, || {
        calls.set(calls.get() + 1);
        calls.get()
    });
    assert_eq!(res, YieldResult::DidntYield(1));
    assert_eq!(calls.get(), 1);
}

#[test]
fn check_yield_counter_wraps_back_is_not_a_yield() {
    // only the two readings are compared
    let switches = Cell::new(5);
    let counter = || switches.get();
    let res = check_yield(&counter, || {
        switches.set(6);
        switches.set(5);
        0u8
    });
    assert_eq!(res, YieldResult::DidntYield(0));
}

#[test]
fn yield_outcome_compares_counts() {
    assert_eq!(yield_outcome(1, 1, 'a'), YieldResult::DidntYield('a'));
    assert_eq!(yield_outcome(1, 2, 'b'), YieldResult::Yielded('b'));
    assert_eq!(yield_outcome(i32::MAX, i32::MIN, 0), YieldResult::Yielded(0));
    assert_eq!(yield_outcome(-3, -3, 9), YieldResult::DidntYield(9));
}

#[test]
fn call_status_negative_is_failure() {
    assert!(call_succeeded(0));
    assert!(call_succeeded(1));
    assert!(call_succeeded(i32::MAX));
    assert!(!call_succeeded(-1));
    assert!(!call_succeeded(i32::MIN));
}

#[test]
fn report_success_passes_code() {
    let r: Result<i32, String> = Ok(0);
    assert_eq!(unwrap_or_report(r), (0, None));
    let r: Result<i32, String> = Ok(5);
    assert_eq!(unwrap_or_report(r), (5, None));
}

#[test]
fn report_failure_sets_error() {
    let r: Result<i32, String> = Err("no such space".to_string());
    assert_eq!(
        unwrap_or_report(r),
        (-1, Some((ErrorCode::ProcC, "no such space".to_string())))
    );
    assert_eq!(PROC_FAILED, -1);
}

#[test]
fn return_msgpack_holds_value() {
    let r = ReturnMsgpack((1, "x"));
    assert_eq!(r.0, (1, "x"));
}

#[test]
fn report_passes_inner_failure_status() {
    // the inner value's own ret already failed and reported; its status is passed on
    let r: Result<i32, String> = Ok(-1);
    assert_eq!(unwrap_or_report(r), (-1, None));
}

#[test]
fn result_ret_step_sends_ok_value() {
    let r: Result<Vec<u8>, &str> = Ok(vec![1, 2]);
    assert_eq!(result_ret_step(r), RetStep::Send(vec![1, 2]));
}

#[test]
fn result_ret_step_err_sends_nothing() {
    let r: Result<Vec<u8>, &str> = Err("boom");
    assert_eq!(
        result_ret_step(r),
        RetStep::Finish(-1, Some((ErrorCode::ProcC, "boom")))
    );
}

#[test]
fn value_sent_outcome_ignores_send_status() {
    let sent: Result<i32, &str> = Ok(7);
    assert_eq!(value_sent_outcome(sent), (0, None));
    let sent: Result<i32, &str> = Err("cannot encode");
    assert_eq!(
        value_sent_outcome(sent),
        (-1, Some((ErrorCode::ProcC, "cannot encode")))
    );
}

#[test]
fn result_ret_outcome_cases() {
    let ok: Result<Result<i32, &str>, &str> = Ok(Ok(3));
    assert_eq!(result_ret_outcome(ok), (PROC_OK, None));
    let enc: Result<Result<i32, &str>, &str> = Ok(Err("bad map key"));
    assert_eq!(
        result_ret_outcome(enc),
        (PROC_FAILED, Some((ErrorCode::ProcC, "bad map key")))
    );
    let err: Result<Result<i32, &str>, &str> = Err("boom");
    assert_eq!(
        result_ret_outcome(err),
        (PROC_FAILED, Some((ErrorCode::ProcC, "boom")))
    );
}
