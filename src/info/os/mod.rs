//! Release tables, one for each supported operating system family.
use vstd::prelude::*;

pub mod linux;
pub mod macos;
pub mod windows;

verus! {

/// The order of two natural numbers.
pub open spec fn cmp_nat(a: nat, b: nat) -> core::cmp::Ordering {
    if a < b {
        core::cmp::Ordering::Less
    } else if a > b {
        core::cmp::Ordering::Greater
    } else {
        core::cmp::Ordering::Equal
    }
}

} // verus!
