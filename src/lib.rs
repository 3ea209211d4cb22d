//! Cross-process locks whose shared record lives in a caller-supplied region
//! of shared memory.
use vstd::prelude::*;

pub mod locks;

verus! {

/// How long an acquisition attempt may wait.
#[derive(Copy, Clone, Debug)]
pub enum Timeout {
    /// Wait until the lock is acquired.
    Infinite,
    /// Wait at most `secs` seconds and `nanos` nanoseconds.
    Val { secs: u64, nanos: u32 },
}

} // verus!
