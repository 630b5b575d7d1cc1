//! Query shapes of the report routes.

use vstd::prelude::*;

verus! {

/// What a new report declares: what is reported, the item it concerns, and
/// the reporter's account of it.  The item type is carried as the string it
/// is serialized to.
#[derive(Debug, Clone, PartialEq, Eq)]
pub struct CreateReport {
    pub report_type: String,
    pub item_id: String,
    pub item_type: String,
    pub body: String,
}

/// How many reports a listing returns at most.
#[derive(Debug, Clone, PartialEq, Eq)]
pub struct ResultCount {
    count: i16,
}

fn default_count() -> (r: i16)
    ensures
        r == 100,
{
    100
}

impl ResultCount {
    /// The requested listing length.
    pub closed spec fn spec_count(&self) -> i16 {
        self.count
    }

    /// The requested listing length.
    pub fn count(&self) -> (r: i16)
        ensures
            r == self.spec_count(),
    {
        self.count
    }
}

impl Default for ResultCount {
    /// The listing length used when the caller asks for none.
    fn default() -> (r: Self)
        ensures
            r.spec_count() == 100,
    {
        ResultCount { count: default_count() }
    }
}

} // verus!
