//! Probes of the host environment.  What they observe depends on the machine
//! and the moment, so nothing is promised of the outcomes; the logic that
//! consumes them takes the observed values as arguments and is verified for
//! every value.

use vstd::prelude::*;

verus! {

/// Relies on nix's `unistd::geteuid` and `Uid::is_root`: whether the process
/// runs with an effective uid of zero.
#[verifier::external_body]
pub fn effective_uid_is_root() -> bool {
    nix::unistd::geteuid().is_root()
}

} // verus!
