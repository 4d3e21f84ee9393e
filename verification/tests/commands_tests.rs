use guardian_agent_windows::commands::{
    capture_screenshot_reply, outcome, route_command, screenshot_policy_reply, CommandRoute,
    ReplyData,
};
use guardian_agent_windows::launch::{launch_mode, telemetry_setup, LaunchMode};
use guardian_agent_windows::text::{bytes_have_prefix, has_prefix, has_suffix, is_blank, same_text};
use guardian_agent_windows::users::get_system_users_map;

fn args(list: &[&str]) -> Vec<String> {
    list.iter().map(|s| s.to_string()).collect()
}

#[test]
fn commands_are_routed() {
    assert!(route_command("sync_screenshot_policy") == CommandRoute::SyncScreenshotPolicy);
    assert!(route_command("capture_screenshot") == CommandRoute::CaptureScreenshot);
    assert!(route_command("detect_hardware_oem") == CommandRoute::HardwareBaseline);
    assert!(route_command("audit_hardware_baseline") == CommandRoute::HardwareBaseline);
    assert!(route_command("apply_hardware_baseline") == CommandRoute::HardwareBaseline);
    assert!(route_command("lock_screen") == CommandRoute::WindowsPolicy);
    assert!(route_command("capture_screenshot ") == CommandRoute::WindowsPolicy);
    assert!(route_command("") == CommandRoute::WindowsPolicy);
}

#[test]
fn screenshot_policy_replies() {
    let (ok, wake) = screenshot_policy_reply(Ok(()));
    assert!(wake);
    assert!(ok.success);
    assert_eq!(ok.message, "Screenshot policy synchronized");
    assert!(matches!(ok.data, ReplyData::Empty));
    let (err, wake) = screenshot_policy_reply(Err("interval must be positive".to_string()));
    assert!(!wake);
    assert!(!err.success);
    assert_eq!(err.message, "interval must be positive");
    assert!(matches!(err.data, ReplyData::Empty));
}

fn queued_user(reply: &guardian_agent_windows::commands::CommandReply) -> Option<String> {
    match &reply.data {
        ReplyData::CaptureQueued { linux_username } => linux_username.clone(),
        ReplyData::Empty => panic!("expected capture data"),
    }
}

#[test]
fn capture_replies_name_the_user() {
    let r = capture_screenshot_reply(Some("bob".to_string()), "alice");
    assert!(r.success);
    assert_eq!(r.message, "Screenshot capture queued");
    assert_eq!(queued_user(&r), Some("bob".to_string()));
    assert_eq!(queued_user(&capture_screenshot_reply(None, "alice")), Some("alice".to_string()));
    assert_eq!(queued_user(&capture_screenshot_reply(None, "  \t")), None);
    assert_eq!(queued_user(&capture_screenshot_reply(None, "\u{3000}\u{2028}")), None);
    assert_eq!(queued_user(&capture_screenshot_reply(None, "")), None);
    assert_eq!(queued_user(&capture_screenshot_reply(Some(String::new()), "alice")), Some(String::new()));
}

#[test]
fn outcome_keeps_its_parts() {
    let r = outcome(false, "nope".to_string(), ReplyData::Empty);
    assert!(!r.success);
    assert_eq!(r.message, "nope");
}

#[test]
fn launch_modes() {
    assert!(launch_mode(&args(&["agent.exe", "chrome-extension://abcdef/"])) == LaunchMode::NativeMessagingProxy);
    assert!(launch_mode(&args(&["chrome-extension://abcdef/"])) == LaunchMode::Service);
    assert!(launch_mode(&args(&["agent.exe", "--user-agent"])) == LaunchMode::UserAgent);
    assert!(
        launch_mode(&args(&["agent.exe", "--user-agent", "chrome-extension://x/"]))
            == LaunchMode::NativeMessagingProxy
    );
    assert!(launch_mode(&args(&["agent.exe"])) == LaunchMode::Service);
    assert!(launch_mode(&args(&[])) == LaunchMode::Service);
    assert!(launch_mode(&args(&["agent.exe", "--user-agents"])) == LaunchMode::Service);
}

#[test]
fn telemetry_needs_a_dsn() {
    assert!(telemetry_setup(None, Some("1.2.3"), "0.1.0").is_none());
    assert!(telemetry_setup(Some(""), Some("1.2.3"), "0.1.0").is_none());
    let t = telemetry_setup(Some("https://key@sentry.example/1"), Some("1.2.3"), "0.1.0").unwrap();
    assert_eq!(t.dsn, "https://key@sentry.example/1");
    assert_eq!(t.release, "1.2.3");
    let t = telemetry_setup(Some("https://key@sentry.example/1"), None, "0.1.0").unwrap();
    assert_eq!(t.release, "0.1.0");
}

#[test]
fn users_map_is_empty() {
    assert!(get_system_users_map().is_empty());
}

#[test]
fn text_helpers() {
    assert!(same_text("abc", "abc"));
    assert!(!same_text("abc", "abd"));
    assert!(!same_text("ab", "abc"));
    assert!(has_prefix("chrome-extension://x", "chrome-extension://"));
    assert!(!has_prefix("chrome", "chrome-extension://"));
    assert!(has_suffix("a.msi", ".msi"));
    assert!(has_suffix("ü.msi", ".msi"));
    assert!(!has_suffix("msi", ".msi"));
    assert!(is_blank(" \n\t\u{a0}"));
    assert!(!is_blank(" x "));
    assert!(!is_blank("\u{200B}"));
    assert!(bytes_have_prefix(&[1, 2, 3], &[1, 2]));
    assert!(!bytes_have_prefix(&[1], &[1, 2]));
}

