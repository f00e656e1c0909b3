//! The system clock.

use std::time::{SystemTime, UNIX_EPOCH};
use vstd::prelude::*;

verus! {

/// Reads the system clock with `SystemTime::now` and measures it from the
/// epoch: `Ok` holds the seconds and nanoseconds after the epoch, `Err` those
/// before it. Trusted to return; nothing is claimed of what it returns, as
/// no two readings need agree.
#[verifier::external_body]
pub(crate) fn read_system_clock() -> (reading: Result<(u64, u32), (u64, u32)>) {
    match SystemTime::now().duration_since(UNIX_EPOCH) {
        Ok(after) => Ok((after.as_secs(), after.subsec_nanos())),
        Err(before) => Err((before.duration().as_secs(), before.duration().subsec_nanos())),
    }
}

} // verus!
