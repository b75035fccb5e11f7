//! Records that the dashboard keeps in its database.
use vstd::prelude::*;

verus! {

/// A device as stored in the database, by the 12-byte document id the
/// database assigned it (`None` before it is stored).
#[derive(Debug, Default, Clone, PartialEq, Eq)]
pub struct Device {
    pub id: Option<[u8; 12]>,
}

} // verus!
