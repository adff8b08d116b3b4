use vstd::prelude::*;

verus! {

/// One event retrieved from the platform.
///
/// `id` grows with every event the platform produces; the retrieval cursor
/// is advanced past it once the update has been dispatched.
#[derive(Debug, PartialEq, Eq, Clone)]
pub struct Update {
    pub id: u64,
    pub text: String,
}

impl Update {
    pub fn new(id: u64, text: String) -> (update: Update)
        ensures
            update == (Update { id, text }),
    {
        Update { id, text }
    }
}

} // verus!
