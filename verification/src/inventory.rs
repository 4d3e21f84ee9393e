//! The installed-apps inventory: one report per monitored user, each under
//! a fresh report id, pushed by a scheduler once a day.

use vstd::prelude::*;
use std::collections::HashMap;
use vstd::std_specs::iter::IteratorSpec;
use crate::schedule::{ShutdownSignal, LoopAction, requests_stop, shutdown_requested};

verus! {

broadcast use vstd::std_specs::hash::group_hash_axioms;

/// Seconds between two inventory rounds.
pub const INSTALLED_APPS_SYNC_INTERVAL_SECS: u64 = 24 * 60 * 60;

pub open spec fn is_lower_hex_digit(c: char) -> bool {
    ('0' as u32 <= c as u32 <= '9' as u32) || ('a' as u32 <= c as u32 <= 'f' as u32)
}

pub open spec fn is_uuid_hyphen_position(i: int) -> bool {
    i == 8 || i == 13 || i == 18 || i == 23
}

/// The canonical text of a random (version 4, RFC 4122 variant) UUID:
/// 36 characters, lower-case hex digits in groups of 8-4-4-4-12.
pub open spec fn is_hyphenated_uuid_v4(s: Seq<char>) -> bool {
    &&& s.len() == 36
    &&& forall|i: int|
        0 <= i < 36 ==> if is_uuid_hyphen_position(i) {
            s[i] == '-'
        } else {
            is_lower_hex_digit(#[trigger] s[i])
        }
    &&& s[14] == '4'
    &&& (s[19] == '8' || s[19] == '9' || s[19] == 'a' || s[19] == 'b')
}

/// A fresh report id from `uuid::Uuid::new_v4`, in its `Display` form.
/// Claimed of it, from the uuid crate's source: `new_v4` fixes the version
/// nibble to 4 and the variant bits to `10`, and `Display` writes the
/// lower-case hyphenated form. Which random bits it draws is not stated.
#[verifier::external_body]
fn new_report_id() -> (id: String)
    ensures
        is_hyphenated_uuid_v4(id@),
{
    uuid::Uuid::new_v4().to_string()
}

/// The header of one user's inventory report.
pub struct InventoryReport {
    pub username: String,
    pub report_id: String,
}

/// A new inventory report for `username` under a fresh report id.
pub fn begin_inventory_report(username: &str) -> (r: InventoryReport)
    ensures
        r.username@ == username@,
        is_hyphenated_uuid_v4(r.report_id@),
{
    InventoryReport { username: String::from_str(username), report_id: new_report_id() }
}

/// One inventory report per monitored user, with the user's id, each under
/// a fresh report id; the `i`-th report is for the `i`-th entry the map's
/// iterator yields.
pub fn inventory_reports_for_users(users: &HashMap<u32, String>) -> (r: Vec<(u32, InventoryReport)>)
    ensures
        r@.len() == users@.dom().len(),
        forall|i: int, j: int| 0 <= i < j < r@.len() ==> r@[i].0 != r@[j].0,
        forall|i: int|
            0 <= i < r@.len() ==> users@.contains_key(#[trigger] r@[i].0) && users@[r@[i].0]@
                == r@[i].1.username@ && is_hyphenated_uuid_v4(r@[i].1.report_id@),
        forall|uid: u32|
            #[trigger] users@.contains_key(uid) ==> exists|i: int| 0 <= i < r@.len() && r@[i].0 == uid,
        forall|i: int|
            0 <= i < r@.len() ==> #[trigger] r@[i].0
                == *vstd::std_specs::hash::spec_hash_map_iter(users).remaining()[i].0,
{
    let mut reports: Vec<(u32, InventoryReport)> = Vec::new();
    let ghost pairs = vstd::std_specs::hash::spec_hash_map_iter(users).remaining();
    for item in it: users.iter()
        invariant
            it.seq() == pairs,
            pairs.no_duplicates(),
            reports@.len() == it.index(),
            forall|i: int|
                #![trigger reports@[i]]
                0 <= i < it.index() ==> reports@[i].0 == *pairs[i].0 && reports@[i].1.username@
                    == (*pairs[i].1)@ && is_hyphenated_uuid_v4(reports@[i].1.report_id@),
    {
        let (uid, name) = item;
        reports.push((*uid, begin_inventory_report(name.as_str())));
    }
    proof {
        assert forall|i: int, j: int| 0 <= i < j < reports@.len() implies reports@[i].0
            != reports@[j].0 by {
            if reports@[i].0 == reports@[j].0 {
                assert(users@.contains_key(*pairs[i].0));
                assert(users@.contains_key(*pairs[j].0));
                assert(pairs[i] == pairs[j]);
            }
        }
        assert forall|uid: u32| #[trigger] users@.contains_key(uid) implies exists|i: int|
            0 <= i < reports@.len() && reports@[i].0 == uid by {
            assert(pairs.contains((&uid, &users@[uid])));
            let i = choose|i: int| 0 <= i < pairs.len() && pairs[i] == (&uid, &users@[uid]);
            assert(reports@[i].0 == uid);
        }
    }
    reports
}

/// What ended a wait of the inventory scheduler.
pub enum InventorySchedulerEvent {
    Shutdown(ShutdownSignal),
    /// A day has passed.
    TimerElapsed,
}

pub open spec fn inventory_reaction(event: InventorySchedulerEvent) -> LoopAction<()> {
    match event {
        InventorySchedulerEvent::Shutdown(signal) => if requests_stop(signal) {
            LoopAction::Stop
        } else {
            LoopAction::Continue
        },
        InventorySchedulerEvent::TimerElapsed => LoopAction::Run(()),
    }
}

/// One round of the inventory scheduler: push the inventory of every user
/// when the day has passed, stop on shutdown.
pub fn inventory_scheduler_step(event: InventorySchedulerEvent) -> (r: LoopAction<()>)
    ensures
        r == inventory_reaction(event),
{
    match event {
        InventorySchedulerEvent::Shutdown(signal) => if shutdown_requested(&signal) {
            LoopAction::Stop
        } else {
            LoopAction::Continue
        },
        InventorySchedulerEvent::TimerElapsed => LoopAction::Run(()),
    }
}

} // verus!
