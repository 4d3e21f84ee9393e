//! The table of monitored system users.

use vstd::prelude::*;
use std::collections::HashMap;

verus! {

/// The monitored users by numeric id, on a host whose account directory
/// this crate does not read: none.
pub fn get_system_users_map() -> (users: HashMap<u32, String>)
    ensures
        users@ == Map::<u32, String>::empty(),
{
    HashMap::new()
}

} // verus!
