//! The policy-sync scheduler: it asks the server whether its domain
//! policies are current at startup, on request and every four hours.

use vstd::prelude::*;
use crate::schedule::{ShutdownSignal, LoopAction, requests_stop, shutdown_requested};

verus! {

/// Seconds between periodic policy-sync checks.
pub const POLICY_SYNC_INTERVAL_SECS: u64 = 4 * 60 * 60;

/// Why a policy-sync check is made.
#[derive(PartialEq, Eq, Structural, Clone, Copy)]
pub enum SyncCheckReason {
    /// The first check, when the scheduler starts.
    Startup,
    /// A check requested through the trigger channel.
    Requested,
    /// The periodic check.
    Periodic,
}

/// What ended a wait of the policy-sync scheduler.
pub enum PolicySyncEvent {
    Shutdown(ShutdownSignal),
    /// A receive on the trigger channel; `false` when every sender is gone.
    Trigger { open: bool },
    /// The periodic interval ran out.
    TimerElapsed,
}

pub open spec fn policy_sync_reaction(event: PolicySyncEvent) -> LoopAction<SyncCheckReason> {
    match event {
        PolicySyncEvent::Shutdown(signal) => if requests_stop(signal) {
            LoopAction::Stop
        } else {
            LoopAction::Continue
        },
        PolicySyncEvent::Trigger { open } => if open {
            LoopAction::Run(SyncCheckReason::Requested)
        } else {
            LoopAction::Stop
        },
        PolicySyncEvent::TimerElapsed => LoopAction::Run(SyncCheckReason::Periodic),
    }
}

/// The check the scheduler makes as soon as it starts.
pub fn policy_sync_startup() -> (r: LoopAction<SyncCheckReason>)
    ensures
        r == LoopAction::Run(SyncCheckReason::Startup),
{
    LoopAction::Run(SyncCheckReason::Startup)
}

/// One round of the policy-sync scheduler.
pub fn policy_sync_step(event: PolicySyncEvent) -> (r: LoopAction<SyncCheckReason>)
    ensures
        r == policy_sync_reaction(event),
{
    match event {
        PolicySyncEvent::Shutdown(signal) => if shutdown_requested(&signal) {
            LoopAction::Stop
        } else {
            LoopAction::Continue
        },
        PolicySyncEvent::Trigger { open } => if open {
            LoopAction::Run(SyncCheckReason::Requested)
        } else {
            LoopAction::Stop
        },
        PolicySyncEvent::TimerElapsed => LoopAction::Run(SyncCheckReason::Periodic),
    }
}

/// The line logged when the check message for a check made for `reason`
/// could not be built; a failure of the startup check goes unreported.
pub open spec fn sync_failure_line(reason: SyncCheckReason, error: Seq<char>) -> Option<Seq<char>> {
    match reason {
        SyncCheckReason::Startup => None,
        SyncCheckReason::Requested => Some("Failed to build policy sync check message: "@ + error),
        SyncCheckReason::Periodic => Some(
            "Failed to build periodic policy sync check message: "@ + error,
        ),
    }
}

/// What to do when the check message for a check made for `reason` could
/// not be built because of `error`: the line to log, if any.
pub fn sync_failure_note(reason: SyncCheckReason, error: &str) -> (r: Option<String>)
    ensures
        match r {
            Some(line) => sync_failure_line(reason, error@) == Some(line@),
            None => sync_failure_line(reason, error@) is None,
        },
{
    match reason {
        SyncCheckReason::Startup => None,
        SyncCheckReason::Requested => {
            let mut line = String::from_str("Failed to build policy sync check message: ");
            line.append(error);
            Some(line)
        },
        SyncCheckReason::Periodic => {
            let mut line = String::from_str("Failed to build periodic policy sync check message: ");
            line.append(error);
            Some(line)
        },
    }
}

/// A check is made at startup, for every request and at every interval;
/// the scheduler stops only on shutdown or when the trigger channel closes.
pub proof fn law_policy_sync_checks(event: PolicySyncEvent)
    ensures
        event is TimerElapsed ==> policy_sync_reaction(event) == LoopAction::Run(
            SyncCheckReason::Periodic,
        ),
        event == (PolicySyncEvent::Trigger { open: true }) ==> policy_sync_reaction(event)
            == LoopAction::Run(SyncCheckReason::Requested),
        policy_sync_reaction(event) is Stop ==> event == (PolicySyncEvent::Trigger {
            open: false,
        }) || (event matches PolicySyncEvent::Shutdown(signal) && requests_stop(signal)),
{
}

} // verus!
