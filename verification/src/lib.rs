//! Decision logic of the Guardian agent's Windows enforcement service:
//! the screenshot scheduler and its shared handles, the policy-sync and
//! installed-apps schedulers, command routing, the self-update procedure
//! and the process launch mode.
//!
//! Apart from drawing fresh report ids, every function here works on the
//! values handed to it; the channels, timers, HTTP client, file system and
//! child processes live with the caller, which performs the action each
//! step returns and hands back what came of it.

pub mod text;
pub mod updater;
pub mod schedule;
pub mod screenshots;
pub mod policy_sync;
pub mod inventory;
pub mod commands;
pub mod launch;
pub mod users;
