//! What can go wrong at the boundary to the engine.

use vstd::prelude::*;

verus! {

/// A failure of `open`, `set` or `lock`.
#[derive(Copy, Clone, Debug, PartialEq, Eq, Structural)]
pub enum Error {
    /// The path holds a zero byte, so it has no null-terminated form.
    InvalidPath,
    /// The engine reported failure; the operating system's error code
    /// that it left behind.
    OsError(i32),
}

} // verus!
