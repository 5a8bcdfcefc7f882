//! Status codes of kernel calls.

use vstd::prelude::*;

verus! {

/// The status with which a kernel call reports success.
pub const KERN_SUCCESS: i32 = 0;

} // verus!
