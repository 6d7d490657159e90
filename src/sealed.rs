//! A marker that only this crate can implement, so that the set of exfiltrators stays closed.
use vstd::prelude::*;

verus! {

/// Implemented by the exfiltrators of this crate and by nothing else.
pub trait Sealed {}

} // verus!
