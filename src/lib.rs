//! Moving information out of signal handlers through slots built from atomics.
//!
//! The [`exfiltrator::Exfiltrator`] trait describes what is kept from a signal delivery and how
//! it is handed to ordinary code later; [`exfiltrator::SignalOnly`] and
//! [`exfiltrator::WithOrigin`] are its two implementations. The [`sys`] module classifies the
//! origin of a delivery from what the platform reports.
pub mod consts;
pub mod exfiltrator;
mod sealed;
pub mod sys;
