//! The action log's database.

use vstd::prelude::*;

verus! {

/// The target on which the action log is opened. The log has one database, the
/// one that the driver opens for the empty target; `db_url` does not choose
/// another.
pub fn get_connection(db_url: &str) -> (target: String)
    ensures
        target@ == Seq::<char>::empty(),
{
    let _ = db_url;
    String::new()
}

} // verus!
