//! Trusted boundary to the OS interrupt machinery.
use vstd::prelude::*;
use std::sync::Arc;
use std::sync::atomic::AtomicBool;
use std::sync::atomic::Ordering;

verus! {

/// Relies on ctrlc::Error, the failure that ctrlc::set_handler reports.
#[verifier::external_type_specification]
#[verifier::external_body]
pub struct ExCtrlcError(ctrlc::Error);

/// Relies on ctrlc::set_handler: it installs a process-wide interrupt
/// handler and returns an error if a handler is already installed or the OS
/// refuses one. The installed handler performs exactly one operation,
/// storing true into the given shared flag; it never stores false, so the
/// flag is monotonic.
#[verifier::external_body]
pub(crate) fn set_termination_handler(flag: Arc<AtomicBool>) -> (result: Result<
    (),
    ctrlc::Error,
>) {
    ctrlc::set_handler(move || flag.store(true, Ordering::SeqCst))
}

/// Relies on Arc::clone: the clone shares the allocation of the original,
/// so both handles dereference to the same cell.
#[verifier::external_body]
pub(crate) fn clone_flag(flag: &Arc<AtomicBool>) -> (cloned: Arc<AtomicBool>)
    ensures
        cloned == *flag,
{
    Arc::clone(flag)
}

} // verus!
