use guardian_agent_windows::inventory::{
    begin_inventory_report, inventory_reports_for_users, inventory_scheduler_step, InventorySchedulerEvent,
    INSTALLED_APPS_SYNC_INTERVAL_SECS,
};
use guardian_agent_windows::policy_sync::{
    policy_sync_startup, policy_sync_step, sync_failure_note, PolicySyncEvent, SyncCheckReason,
    POLICY_SYNC_INTERVAL_SECS,
};
use guardian_agent_windows::schedule::{shutdown_requested, LoopAction, ShutdownSignal};
use guardian_agent_windows::screenshots::{
    capture_worker_step, screenshot_report_steps, screenshot_scheduler_step, screenshot_sleep_secs,
    CaptureWorkerEvent, ReportStep, ScreenshotHandles, ScreenshotSchedulerEvent,
};
use std::collections::HashMap;

#[test]
fn shutdown_signals() {
    assert!(shutdown_requested(&ShutdownSignal::SenderDropped));
    assert!(shutdown_requested(&ShutdownSignal::Changed { shutdown: true }));
    assert!(!shutdown_requested(&ShutdownSignal::Changed { shutdown: false }));
}

#[test]
fn screenshot_sleep_intervals() {
    assert_eq!(screenshot_sleep_secs(true, 30), 60);
    assert_eq!(screenshot_sleep_secs(true, 60), 60);
    assert_eq!(screenshot_sleep_secs(true, 900), 900);
    assert_eq!(screenshot_sleep_secs(false, 900), 300);
    assert_eq!(screenshot_sleep_secs(false, 5), 300);
}

#[test]
fn screenshot_scheduler_rounds() {
    assert!(matches!(
        screenshot_scheduler_step(ScreenshotSchedulerEvent::Shutdown(ShutdownSignal::SenderDropped)),
        LoopAction::Stop
    ));
    assert!(matches!(
        screenshot_scheduler_step(ScreenshotSchedulerEvent::Shutdown(ShutdownSignal::Changed { shutdown: false })),
        LoopAction::Continue
    ));
    assert!(matches!(screenshot_scheduler_step(ScreenshotSchedulerEvent::Woken), LoopAction::Continue));
    assert!(matches!(
        screenshot_scheduler_step(ScreenshotSchedulerEvent::TimerElapsed { capture_enabled: true }),
        LoopAction::Run(None)
    ));
    assert!(matches!(
        screenshot_scheduler_step(ScreenshotSchedulerEvent::TimerElapsed { capture_enabled: false }),
        LoopAction::Continue
    ));
}

#[test]
fn capture_worker_rounds() {
    assert!(matches!(
        capture_worker_step(CaptureWorkerEvent::Shutdown(ShutdownSignal::Changed { shutdown: true })),
        LoopAction::Stop
    ));
    assert!(matches!(capture_worker_step(CaptureWorkerEvent::Trigger(None)), LoopAction::Stop));
    assert!(matches!(capture_worker_step(CaptureWorkerEvent::Trigger(Some(None))), LoopAction::Run(None)));
    match capture_worker_step(CaptureWorkerEvent::Trigger(Some(Some("alice".to_string())))) {
        LoopAction::Run(Some(user)) => assert_eq!(user, "alice"),
        _ => panic!("expected a capture for alice"),
    }
}

#[test]
fn report_steps_follow_captures() {
    let steps = screenshot_report_steps(vec![
        Ok("{\"a\":1}".to_string()),
        Err("encoder failed".to_string()),
        Ok("{\"b\":2}".to_string()),
    ]);
    assert_eq!(steps.len(), 3);
    assert!(matches!(&steps[0], ReportStep::Send(r) if r == "{\"a\":1}"));
    assert!(matches!(&steps[1], ReportStep::Log(l) if l == "Failed to build screenshot report: encoder failed"));
    assert!(matches!(&steps[2], ReportStep::Send(r) if r == "{\"b\":2}"));
    assert!(screenshot_report_steps(vec![]).is_empty());
}

#[test]
fn screenshot_handles_lifecycle() {
    let mut handles: ScreenshotHandles<u32, &'static str, char> = ScreenshotHandles::new();
    assert!(handles.wake_screenshot_scheduler().is_none());
    assert_eq!(*handles.get_screenshot_policy_handle(|| 7), 7);
    // The first handle stays, whatever a later call would create.
    assert_eq!(*handles.get_screenshot_policy_handle(|| 8), 7);
    handles.set_screenshot_trigger_tx("trigger");
    handles.set_scheduler_wake_tx('w');
    assert_eq!(handles.wake_screenshot_scheduler(), Some(&'w'));
    handles.clear_screenshot_handles();
    assert!(handles.wake_screenshot_scheduler().is_none());
    assert_eq!(*handles.get_screenshot_policy_handle(|| 9), 7);
}

#[test]
fn policy_sync_rounds() {
    assert!(matches!(policy_sync_startup(), LoopAction::Run(SyncCheckReason::Startup)));
    assert!(matches!(policy_sync_step(PolicySyncEvent::TimerElapsed), LoopAction::Run(SyncCheckReason::Periodic)));
    assert!(matches!(
        policy_sync_step(PolicySyncEvent::Trigger { open: true }),
        LoopAction::Run(SyncCheckReason::Requested)
    ));
    assert!(matches!(policy_sync_step(PolicySyncEvent::Trigger { open: false }), LoopAction::Stop));
    assert!(matches!(
        policy_sync_step(PolicySyncEvent::Shutdown(ShutdownSignal::SenderDropped)),
        LoopAction::Stop
    ));
    assert!(matches!(
        policy_sync_step(PolicySyncEvent::Shutdown(ShutdownSignal::Changed { shutdown: false })),
        LoopAction::Continue
    ));
    assert_eq!(POLICY_SYNC_INTERVAL_SECS, 14_400);
}

#[test]
fn policy_sync_failure_notes() {
    assert_eq!(sync_failure_note(SyncCheckReason::Startup, "offline"), None);
    assert_eq!(
        sync_failure_note(SyncCheckReason::Requested, "offline"),
        Some("Failed to build policy sync check message: offline".to_string())
    );
    assert_eq!(
        sync_failure_note(SyncCheckReason::Periodic, "offline"),
        Some("Failed to build periodic policy sync check message: offline".to_string())
    );
}

fn is_v4_uuid_text(id: &str) -> bool {
    let chars: Vec<char> = id.chars().collect();
    chars.len() == 36
        && chars.iter().enumerate().all(|(i, c)| {
            if [8, 13, 18, 23].contains(&i) {
                *c == '-'
            } else {
                c.is_ascii_digit() || ('a'..='f').contains(c)
            }
        })
        && chars[14] == '4'
        && ['8', '9', 'a', 'b'].contains(&chars[19])
}

#[test]
fn inventory_reports_cover_every_user_once() {
    let mut users = HashMap::new();
    users.insert(1000u32, "alice".to_string());
    users.insert(1001u32, "bob".to_string());
    users.insert(1002u32, "alice".to_string());
    let reports = inventory_reports_for_users(&users);
    assert_eq!(reports.len(), 3);
    let mut seen: Vec<(u32, String)> = reports.iter().map(|(uid, r)| (*uid, r.username.clone())).collect();
    seen.sort();
    assert_eq!(
        seen,
        vec![(1000, "alice".to_string()), (1001, "bob".to_string()), (1002, "alice".to_string())]
    );
    for (_, report) in &reports {
        assert!(is_v4_uuid_text(&report.report_id), "{}", report.report_id);
    }
    assert_ne!(reports[0].1.report_id, reports[1].1.report_id);
    assert!(inventory_reports_for_users(&HashMap::new()).is_empty());
}

#[test]
fn inventory_scheduler_rounds() {
    assert!(matches!(inventory_scheduler_step(InventorySchedulerEvent::TimerElapsed), LoopAction::Run(())));
    assert!(matches!(
        inventory_scheduler_step(InventorySchedulerEvent::Shutdown(ShutdownSignal::Changed { shutdown: true })),
        LoopAction::Stop
    ));
    assert!(matches!(
        inventory_scheduler_step(InventorySchedulerEvent::Shutdown(ShutdownSignal::Changed { shutdown: false })),
        LoopAction::Continue
    ));
    assert_eq!(INSTALLED_APPS_SYNC_INTERVAL_SECS, 86_400);
}

#[test]
fn single_inventory_report() {
    let a = begin_inventory_report("carol");
    let b = begin_inventory_report("carol");
    assert_eq!(a.username, "carol");
    assert!(is_v4_uuid_text(&a.report_id));
    assert!(is_v4_uuid_text(&b.report_id));
    assert_ne!(a.report_id, b.report_id);
}

#[test]
fn inventory_reports_follow_map_iteration_order() {
    let mut users = HashMap::new();
    for uid in 1000u32..1010 {
        users.insert(uid, format!("user{uid}"));
    }
    let reports = inventory_reports_for_users(&users);
    let order: Vec<(u32, String)> = users.iter().map(|(uid, name)| (*uid, name.clone())).collect();
    let got: Vec<(u32, String)> = reports.iter().map(|(uid, r)| (*uid, r.username.clone())).collect();
    assert_eq!(got, order);
}
