//! Classifying who sent a signal, from the small code that the platform's decoder reports.
//!
//! The decoder reads the platform's signal record and reports one of [`ORIGIN_UNKNOWN`],
//! [`ORIGIN_PROCESS`] or [`ORIGIN_KERNEL`], with the sender's pid and uid for the second. Any
//! other code means that the decoder and this crate disagree on their interface.
use vstd::prelude::*;

use libc::{pid_t, uid_t};

verus! {

/// The decoder could not tell who sent the signal.
pub const ORIGIN_UNKNOWN: u8 = 0;

/// A process sent the signal; its pid and uid were reported.
pub const ORIGIN_PROCESS: u8 = 1;

/// The kernel raised the signal.
pub const ORIGIN_KERNEL: u8 = 2;

/// Why a process sent a signal. Only [`Cause::User`] is told apart so far; the other causes
/// are named for the classification to grow into.
#[non_exhaustive]
#[derive(Clone, Debug, PartialEq, Eq, Structural)]
pub enum Cause {
    User,
    Queue,
    MesgQ,
    Exited,
    Killed,
    Dumped,
    Trapped,
    Stopped,
    Continued,
}

/// Who sent a signal.
#[non_exhaustive]
#[derive(Clone, Debug, PartialEq, Eq, Structural)]
pub enum Origin {
    Unknown,
    Kernel,
    Process { pid: pid_t, uid: uid_t, cause: Cause },
}

/// The origin that the decoder's code `origin` stands for, with the pid and uid it reported;
/// `None` for a code that is none of the three.
pub open spec fn origin_of_code(origin: u8, pid: pid_t, uid: uid_t) -> Option<Origin> {
    if origin == ORIGIN_UNKNOWN {
        Some(Origin::Unknown)
    } else if origin == ORIGIN_KERNEL {
        Some(Origin::Kernel)
    } else if origin == ORIGIN_PROCESS {
        Some(Origin::Process { pid, uid, cause: Cause::User })
    } else {
        None
    }
}

impl Origin {
    /// Turns what the decoder reported into an origin. `None` means the code is unknown to
    /// this crate: a caller in signal context cannot recover from that and must abort.
    pub fn from_raw(origin: u8, pid: pid_t, uid: uid_t) -> (r: Option<Origin>)
        ensures
            r == origin_of_code(origin, pid, uid),
    {
        if origin == ORIGIN_UNKNOWN {
            Some(Origin::Unknown)
        } else if origin == ORIGIN_KERNEL {
            Some(Origin::Kernel)
        } else if origin == ORIGIN_PROCESS {
            Some(Origin::Process { pid, uid, cause: Cause::User })
        } else {
            None
        }
    }
}

} // verus!
