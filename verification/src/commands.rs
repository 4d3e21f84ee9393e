//! Routing of server commands and the replies of the screenshot commands.

use vstd::prelude::*;
use crate::text::{same_text, is_blank, is_blank_text, opt_text, is_unicode_whitespace};

verus! {

/// Which handler a command goes to.
#[derive(PartialEq, Eq, Structural, Clone, Copy)]
pub enum CommandRoute {
    /// `sync_screenshot_policy`: apply the screenshot policy in the arguments.
    SyncScreenshotPolicy,
    /// `capture_screenshot`: acknowledge a capture request.
    CaptureScreenshot,
    /// `detect_hardware_oem`, `audit_hardware_baseline`,
    /// `apply_hardware_baseline`: the firmware-management handler.
    HardwareBaseline,
    /// Anything else: the Windows policy handler.
    WindowsPolicy,
}

pub open spec fn command_route(action: Seq<char>) -> CommandRoute {
    if action == "sync_screenshot_policy"@ {
        CommandRoute::SyncScreenshotPolicy
    } else if action == "capture_screenshot"@ {
        CommandRoute::CaptureScreenshot
    } else if action == "detect_hardware_oem"@ || action == "audit_hardware_baseline"@ || action
        == "apply_hardware_baseline"@ {
        CommandRoute::HardwareBaseline
    } else {
        CommandRoute::WindowsPolicy
    }
}

/// The handler for the command named `action`.
pub fn route_command(action: &str) -> (r: CommandRoute)
    ensures
        r == command_route(action@),
{
    if same_text(action, "sync_screenshot_policy") {
        CommandRoute::SyncScreenshotPolicy
    } else if same_text(action, "capture_screenshot") {
        CommandRoute::CaptureScreenshot
    } else if same_text(action, "detect_hardware_oem") || same_text(action, "audit_hardware_baseline")
        || same_text(action, "apply_hardware_baseline") {
        CommandRoute::HardwareBaseline
    } else {
        CommandRoute::WindowsPolicy
    }
}

/// The data part of a reply.
pub enum ReplyData {
    /// An empty object.
    Empty,
    /// `{"queued": true, "linux_username": ...}`.
    CaptureQueued { linux_username: Option<String> },
}

/// The agent's answer to a command.
pub struct CommandReply {
    pub success: bool,
    pub message: String,
    pub data: ReplyData,
}

/// A reply with the given parts.
pub fn outcome(success: bool, message: String, data: ReplyData) -> (r: CommandReply)
    ensures
        r.success == success,
        r.message == message,
        r.data == data,
{
    CommandReply { success, message, data }
}

/// The reply to `sync_screenshot_policy` once the policy was applied (or
/// refused with a message), and whether the scheduler is to be woken: only
/// when the policy was applied.
pub fn screenshot_policy_reply(applied: Result<(), String>) -> (r: (CommandReply, bool))
    ensures
        r.0.success == (applied is Ok),
        r.1 == (applied is Ok),
        r.0.data is Empty,
        applied is Ok ==> r.0.message@ == "Screenshot policy synchronized"@,
        applied matches Err(message) ==> r.0.message == message,
{
    match applied {
        Ok(()) => (
            outcome(true, String::from_str("Screenshot policy synchronized"), ReplyData::Empty),
            true,
        ),
        Err(message) => (outcome(false, message, ReplyData::Empty), false),
    }
}

/// The user a capture is for: the one named in the arguments, else the
/// issuing user unless that name is blank.
pub open spec fn capture_user(requested: Option<Seq<char>>, username: Seq<char>) -> Option<
    Seq<char>,
> {
    match requested {
        Some(name) => Some(name),
        None => if is_blank_text(username) {
            None
        } else {
            Some(username)
        },
    }
}

/// The reply to `capture_screenshot`, given the `linux_username` string in
/// the arguments (if there is one) and the name of the issuing user.
pub fn capture_screenshot_reply(requested: Option<String>, username: &str) -> (r: CommandReply)
    ensures
        r.success,
        r.message@ == "Screenshot capture queued"@,
        requested matches Some(name) ==> r.data == (ReplyData::CaptureQueued {
            linux_username: Some(name),
        }),
        requested is None && (forall|i: int|
            0 <= i < username@.len() ==> is_unicode_whitespace(#[trigger] username@[i]))
            ==> r.data == (ReplyData::CaptureQueued { linux_username: None }),
        requested is None && (exists|i: int|
            0 <= i < username@.len() && !is_unicode_whitespace(#[trigger] username@[i]))
            ==> (r.data matches ReplyData::CaptureQueued { linux_username: Some(name) } && name@
            == username@),
        r.data matches ReplyData::CaptureQueued { linux_username } && match linux_username {
            Some(name) => capture_user(opt_text(requested), username@) == Some(name@),
            None => capture_user(opt_text(requested), username@) is None,
        },
{
    let linux_username = match requested {
        Some(name) => Some(name),
        None => if is_blank(username) {
            None
        } else {
            Some(String::from_str(username))
        },
    };
    outcome(
        true,
        String::from_str("Screenshot capture queued"),
        ReplyData::CaptureQueued { linux_username },
    )
}

/// A capture for a user named in the arguments is for that user, whatever
/// the issuing user's name; without one it is for the issuing user, unless
/// that name is nothing but whitespace, in which case it is for every user.
pub proof fn law_capture_user(name: Seq<char>, username: Seq<char>)
    ensures
        capture_user(Some(name), username) == Some(name),
        (forall|i: int| 0 <= i < username.len() ==> is_unicode_whitespace(#[trigger] username[i]))
            ==> capture_user(None, username) is None,
        (exists|i: int| 0 <= i < username.len() && !is_unicode_whitespace(#[trigger] username[i]))
            ==> capture_user(None, username) == Some(username),
{
}

} // verus!
