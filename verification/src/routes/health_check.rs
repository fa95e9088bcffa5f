//! The health route.

use vstd::prelude::*;

verus! {

/// The status and body of the health route: 200 and `healthy`.
pub fn health_check() -> (r: (u16, String))
    ensures
        r.0 == 200,
        r.1@ == "healthy"@,
{
    (200, String::from_str("healthy"))
}

} // verus!
