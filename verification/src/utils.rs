//! Small shared helpers.

use vstd::prelude::*;
use vstd::string::StringExecFns;

verus! {

/// Builds the message reported for an internal error that should never
/// happen, tagged with a unique identifier so reports can be traced.
pub fn bug(uuid: &str) -> (r: String)
    ensures
        r@ == uuid@ + ": This error should not happen, please report"@,
{
    let mut msg = String::from_str(uuid);
    msg.append(": This error should not happen, please report");
    msg
}

} // verus!
