//! Vocabulary shared by the agent's background loops.

use vstd::prelude::*;

verus! {

/// What a wait on the service's shutdown watch reported.
pub enum ShutdownSignal {
    /// Every sender of the shutdown watch is gone.
    SenderDropped,
    /// The watched value changed; `shutdown` is its new value.
    Changed { shutdown: bool },
}

/// A loop stops when the shutdown watch is gone or now reads `true`.
pub open spec fn requests_stop(signal: ShutdownSignal) -> bool {
    match signal {
        ShutdownSignal::SenderDropped => true,
        ShutdownSignal::Changed { shutdown } => shutdown,
    }
}

/// Whether this shutdown signal ends a loop.
pub fn shutdown_requested(signal: &ShutdownSignal) -> (r: bool)
    ensures
        r == requests_stop(*signal),
{
    match signal {
        ShutdownSignal::SenderDropped => true,
        ShutdownSignal::Changed { shutdown } => *shutdown,
    }
}

/// What a background loop does after an event.
pub enum LoopAction<W> {
    /// Leave the loop.
    Stop,
    /// Go round again and wait for the next event.
    Continue,
    /// Carry out this piece of work, then go round again.
    Run(W),
}

/// Every background loop leaves as soon as shutdown is requested, and a
/// shutdown watch that changed to `false` keeps every loop running.
pub proof fn law_every_loop_stops_on_shutdown(signal: ShutdownSignal)
    ensures
        requests_stop(signal) ==> {
            &&& crate::screenshots::scheduler_reaction(
                crate::screenshots::ScreenshotSchedulerEvent::Shutdown(signal),
            ) is Stop
            &&& crate::screenshots::worker_reaction(
                crate::screenshots::CaptureWorkerEvent::Shutdown(signal),
            ) is Stop
            &&& crate::policy_sync::policy_sync_reaction(
                crate::policy_sync::PolicySyncEvent::Shutdown(signal),
            ) is Stop
            &&& crate::inventory::inventory_reaction(
                crate::inventory::InventorySchedulerEvent::Shutdown(signal),
            ) is Stop
        },
        !requests_stop(signal) ==> {
            &&& crate::screenshots::scheduler_reaction(
                crate::screenshots::ScreenshotSchedulerEvent::Shutdown(signal),
            ) is Continue
            &&& crate::screenshots::worker_reaction(
                crate::screenshots::CaptureWorkerEvent::Shutdown(signal),
            ) is Continue
            &&& crate::policy_sync::policy_sync_reaction(
                crate::policy_sync::PolicySyncEvent::Shutdown(signal),
            ) is Continue
            &&& crate::inventory::inventory_reaction(
                crate::inventory::InventorySchedulerEvent::Shutdown(signal),
            ) is Continue
        },
{
}

} // verus!
