//! Monotonic timestamps as a single nanosecond count.

use vstd::prelude::*;

verus! {

/// Nanoseconds in one second.
pub const NANOS_PER_SEC: u128 = 1_000_000_000;

/// The nanosecond count that a clock reading of `secs` whole seconds and
/// `nanos` further nanoseconds stands for.
pub open spec fn nanos_of(secs: u64, nanos: u32) -> nat {
    (secs as nat) * 1_000_000_000 + nanos as nat
}

/// Folds a clock reading of whole seconds and sub-second nanoseconds into one
/// nanosecond count.
pub fn monotonic_ns_from(secs: u64, nanos: u32) -> (ns: u128)
    ensures
        ns == nanos_of(secs, nanos),
{
    let whole: u128 = secs as u128 * NANOS_PER_SEC;
    whole + nanos as u128
}

} // verus!
