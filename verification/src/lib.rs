//! Frame writing for a native module that a JavaScript host loads.
//!
//! The host-facing binding lives outside this library: it calls
//! [`write_frame`] and hands the number it gets to the host runtime.

use vstd::prelude::*;

verus! {

/// Writes a frame and returns the number that the host is given for the call.
///
/// The call takes no input, touches no state and cannot fail. The number is 0
/// on every call.
pub fn write_frame() -> (reported: i32)
    ensures
        reported == 0,
{
    0
}

} // verus!
