//! Platform codes of the `si_code` field that tell how a signal was sent.
//!
//! Their numeric values come from the platform's headers and are not portable; this table holds
//! the values of Linux (glibc and musl).
use vstd::prelude::*;

use libc::c_int;

verus! {

/// The signal was sent by `kill` or `raise`.
pub const SI_USER: c_int = 0;

/// The signal was sent by `sigqueue`.
pub const SI_QUEUE: c_int = -1;

} // verus!
