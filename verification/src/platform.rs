//! Platform identification for the UI layer.

use vstd::prelude::*;

verus! {

/// Names the build target's platform class: `"mobile"` when built for a
/// phone or tablet target, `"desktop"` otherwise.  Pure; never fails.
/// The caller supplies the build-target flag, which is fixed at compile
/// time.
pub fn platform_type(mobile_target: bool) -> (r: Result<String, String>)
    ensures
        mobile_target ==> (r matches Ok(s) && s@ == "mobile"@),
        !mobile_target ==> (r matches Ok(s) && s@ == "desktop"@),
{
    if mobile_target {
        Ok(String::from_str("mobile"))
    } else {
        Ok(String::from_str("desktop"))
    }
}

} // verus!
