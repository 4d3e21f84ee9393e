//! How the agent process starts: which role it plays, and whether crash
//! reporting is set up.

use vstd::prelude::*;
use crate::text::{has_prefix, same_text};

verus! {

/// The role of the process.
#[derive(PartialEq, Eq, Structural, Clone, Copy)]
pub enum LaunchMode {
    /// Started by the browser as the extension's native-messaging host.
    NativeMessagingProxy,
    /// Started in a user session with `--user-agent`.
    UserAgent,
    /// Started as the Windows service.
    Service,
}

pub open spec fn names_extension_origin(arg: Seq<char>) -> bool {
    "chrome-extension://"@.is_prefix_of(arg)
}

pub open spec fn launch_mode_of(args: Seq<Seq<char>>) -> LaunchMode {
    if args.len() >= 2 && exists|i: int| 0 <= i < args.len() && names_extension_origin(#[trigger] args[i]) {
        LaunchMode::NativeMessagingProxy
    } else if exists|i: int| 0 <= i < args.len() && #[trigger] args[i] == "--user-agent"@ {
        LaunchMode::UserAgent
    } else {
        LaunchMode::Service
    }
}

/// The role given by the command line `args` (program name first).
pub fn launch_mode(args: &Vec<String>) -> (r: LaunchMode)
    ensures
        r == launch_mode_of(args@.map_values(|a: String| a@)),
{
    let ghost views = args@.map_values(|a: String| a@);
    let n = args.len();
    let mut origin = false;
    let mut user_agent = false;
    let mut i: usize = 0;
    while i < n
        invariant
            n == args@.len(),
            views == args@.map_values(|a: String| a@),
            i <= n,
            origin <==> exists|j: int| 0 <= j < i && names_extension_origin(#[trigger] views[j]),
            user_agent <==> exists|j: int| 0 <= j < i && #[trigger] views[j] == "--user-agent"@,
        decreases n - i,
    {
        let arg = args[i].as_str();
        if has_prefix(arg, "chrome-extension://") {
            origin = true;
        }
        if same_text(arg, "--user-agent") {
            user_agent = true;
        }
        proof {
            assert(views[i as int] == args@[i as int]@);
        }
        i = i + 1;
    }
    if n >= 2 && origin {
        LaunchMode::NativeMessagingProxy
    } else if user_agent {
        LaunchMode::UserAgent
    } else {
        LaunchMode::Service
    }
}

/// How crash reporting is set up.
pub struct TelemetrySetup {
    pub dsn: String,
    pub release: String,
}

/// Crash reporting is set up when a non-empty DSN was built in; releases
/// are named by the agent version, else by the package version.
pub fn telemetry_setup(dsn: Option<&str>, agent_version: Option<&str>, package_version: &str) -> (r:
    Option<TelemetrySetup>)
    ensures
        r is Some <==> (dsn matches Some(d) && d@.len() > 0),
        r matches Some(setup) ==> setup.dsn@ == dsn->0@ && setup.release@ == match agent_version {
            Some(v) => v@,
            None => package_version@,
        },
{
    let release = match agent_version {
        Some(v) => String::from_str(v),
        None => String::from_str(package_version),
    };
    match dsn {
        Some(d) => {
            if d.unicode_len() == 0 {
                None
            } else {
                Some(TelemetrySetup { dsn: String::from_str(d), release })
            }
        },
        None => None,
    }
}

/// A command line of two or more arguments with an argument, at any
/// position, that starts with `chrome-extension://` starts the
/// native-messaging proxy; appending arguments never takes that role away.
pub proof fn law_extension_origin_anywhere_starts_proxy(args: Seq<Seq<char>>, more: Seq<Seq<char>>, i: int)
    requires
        args.len() >= 2,
        0 <= i < args.len(),
        "chrome-extension://"@.is_prefix_of(args[i]),
    ensures
        launch_mode_of(args) == LaunchMode::NativeMessagingProxy,
        launch_mode_of(args + more) == LaunchMode::NativeMessagingProxy,
{
    assert(names_extension_origin(args[i]));
    assert((args + more)[i] == args[i]);
    assert(names_extension_origin((args + more)[i]));
}

/// Without an extension origin (or with fewer than two arguments), an
/// argument `--user-agent` anywhere starts the user agent, and otherwise the
/// process is the service.
pub proof fn law_other_roles(args: Seq<Seq<char>>)
    requires
        args.len() < 2 || forall|i: int| 0 <= i < args.len() ==> !"chrome-extension://"@.is_prefix_of(
            #[trigger] args[i],
        ),
    ensures
        (exists|i: int| 0 <= i < args.len() && #[trigger] args[i] == "--user-agent"@) ==> launch_mode_of(
            args,
        ) == LaunchMode::UserAgent,
        (forall|i: int| 0 <= i < args.len() ==> #[trigger] args[i] != "--user-agent"@) ==> launch_mode_of(
            args,
        ) == LaunchMode::Service,
{
}

} // verus!
