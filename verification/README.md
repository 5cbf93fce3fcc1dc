# tarantool fibers

A library around the fiber API of the Tarantool runtime.

- `src/` is verified with Verus: the check whether a call made the calling
  fiber yield (`fiber::csw`), the reading of the C API's call statuses
  (`fiber::call_succeeded`), the opaque objects of the C API (`fiber::ffi`),
  and the decisions of a stored procedure's return (`proc`): whether a value
  is sent, the status returned and the `ProcC` error to be reported.
- `app/` holds the handles that call the C API of the running server
  (`Fiber`, `FiberAttr`, `FiberCond` and the free functions of the fiber
  module), and the `Return` impls of stored procedures over a function
  context; they hand each call's outcome to the library and carry out what
  it decides.
- `tests/` runs the library on concrete values.
