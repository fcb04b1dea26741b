use std::sync::Arc;
use vstd::prelude::*;

use crate::handle::Handle;

verus! {

/// `signal_hook`'s registration identifier, handed back so that a caller can
/// later unregister through that crate if it wants to.
#[verifier::external_type_specification]
#[verifier::external_body]
pub struct ExSigId(signal_hook::SigId);

/// The operating system's error for a failed handler installation.
#[verifier::external_type_specification]
#[verifier::external_body]
pub struct ExIoError(std::io::Error);

/// The signals whose handlers `signal_hook` refuses to replace, by number on
/// this platform: SIGILL, SIGFPE, SIGKILL, SIGSEGV and SIGSTOP.
pub open spec fn forbidden_signal(signal: i32) -> bool {
    signal == 4 || signal == 8 || signal == 9 || signal == 11 || signal == 19
}

impl Handle {
    /// Installs a process-wide handler that raises this handle's flag
    /// whenever `signal` is delivered, so that every proxy consulting the
    /// flag reopens on its next operation.
    ///
    /// Relies on `signal_hook::flag::register`: on delivery of `signal` its
    /// handler stores `true` into the shared cell — a plain atomic store,
    /// safe in signal-handler context — then chains to whatever handler was
    /// installed before; registrations for the same signal share one
    /// OS-level installation; on installation failure the OS error comes
    /// back and no process state is changed. It panics on the forbidden
    /// signals, which `requires` leaves out.
    #[verifier::external_body]
    pub fn register_signal(&self, signal: i32) -> (r: Result<signal_hook::SigId, std::io::Error>)
        requires
            !forbidden_signal(signal),
    {
        signal_hook::flag::register(signal, Arc::clone(&self.0))
    }
}

} // verus!
