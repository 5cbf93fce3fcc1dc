//! The opaque objects of the runtime's C fiber API. Values of these types are
//! only ever seen behind pointers that the runtime hands out.

use vstd::prelude::*;

verus! {

/// A fiber of the runtime.
pub struct Fiber {
    _unused: [u8; 0],
}

/// A set of attributes that fibers are created with.
pub struct FiberAttr {
    _unused: [u8; 0],
}

/// A condition variable for fibers.
pub struct FiberCond {
    _unused: [u8; 0],
}

} // verus!
