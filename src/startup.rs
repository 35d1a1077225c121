//! The startup sequence: from the server constructor's result to the parts
//! that run side by side, the tray and the supervisor.
use crate::descriptor::RegistrationDescriptor;
use crate::signal::ShutdownSignal;
use crate::supervisor::{Supervisor, SupervisorState};
use crate::tray::TrayController;
use std::sync::Arc;
use tokio::sync::Notify;
use vstd::prelude::*;

verus! {

/// The parts made at startup: the tray, which fires the shutdown signal; the
/// notifier that the server side awaits; the supervisor of the server run.
pub struct Started {
    pub tray: TrayController,
    pub waiter: Arc<Notify>,
    pub supervisor: Supervisor,
}

/// Whether `s` is a fresh start over the descriptor `d`: a tray over `d` with
/// a shutdown signal not yet fired, the awaiting side on that signal's
/// notifier, and a running supervisor.
pub open spec fn is_fresh_start(s: Started, d: RegistrationDescriptor) -> bool {
    &&& s.tray.descriptor_of() == d
    &&& !s.tray.signal_of().is_fired()
    &&& s.waiter == s.tray.signal_of().channel()
    &&& s.supervisor.state_of() == SupervisorState::Running
}

/// Starts from the result of constructing the server. A construction error
/// is handed back as it is, and then neither a shutdown signal nor a tray is
/// made; otherwise the signal, the tray and the supervisor are made fresh.
pub fn start<E>(made: Result<RegistrationDescriptor, E>) -> (r: Result<Started, E>)
    ensures
        made is Err <==> r is Err,
        made matches Err(e) ==> r == Err::<Started, E>(e),
        made matches Ok(d) ==> (r matches Ok(s) && is_fresh_start(s, d)),
{
    match made {
        Err(e) => Err(e),
        Ok(descriptor) => {
            let signal = ShutdownSignal::new();
            let waiter = signal.waiter();
            let tray = TrayController::new(signal, descriptor);
            Ok(Started { tray, waiter, supervisor: Supervisor::new() })
        },
    }
}

} // verus!
