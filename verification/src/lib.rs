//! Fibers of the Tarantool runtime: the decisions around the C fiber API,
//! the check whether a call yielded, and the status codes of stored procedures.

pub mod fiber;
pub mod proc;
