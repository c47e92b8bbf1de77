//! What a caller is answered: zero for success, a negative number for each way to fail.

use vstd::prelude::*;

verus! {

pub const SUCCESS: i32 = 0;

/// A required pointer was null.
pub const NULL_ARGUMENT: i32 = -1;

/// The path is not UTF-8.
pub const BAD_PATH: i32 = -2;

/// The file cannot be opened.
pub const CANNOT_OPEN: i32 = -3;

/// The file's motion data cannot be loaded.
pub const CANNOT_LOAD: i32 = -4;

/// The frame cannot be processed.
pub const CANNOT_PROCESS: i32 = -5;

} // verus!
