//! Startup guard decisions: the single-instance lock and the elevation check.

use vstd::prelude::*;

verus! {

/// Whether creating the named instance lock gave this process its ownership:
/// the lock object was created and did not exist before the call.
pub fn instance_acquired(created: bool, already_existed: bool) -> (r: bool)
    ensures
        r == (created && !already_existed),
{
    created && !already_existed
}

/// Whether the process runs elevated, from the three steps of the token
/// query. A token that cannot be opened or queried counts as not elevated.
pub fn elevated_from_token(token_opened: bool, queried: bool, token_is_elevated: u32) -> (r: bool)
    ensures
        r == (token_opened && queried && token_is_elevated != 0),
{
    if !token_opened {
        return false;
    }
    if !queried {
        return false;
    }
    token_is_elevated != 0
}

} // verus!
