//! Query shapes of the moderation routes.

use vstd::prelude::*;

verus! {

/// How many projects a moderation listing returns at most.
#[derive(Debug, Clone, PartialEq, Eq)]
pub struct ResultCount {
    pub count: i16,
}

fn default_count() -> (r: i16)
    ensures
        r == 100,
{
    100
}

impl Default for ResultCount {
    /// The listing length used when the caller asks for none.
    fn default() -> (r: Self)
        ensures
            r.count == 100,
    {
        ResultCount { count: default_count() }
    }
}

} // verus!
