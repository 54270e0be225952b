//! The address of the store.

use vstd::prelude::*;
use vstd::string::*;

verus! {

/// The address under which the SQLite store at a path is opened:
/// `sqlite://` and the path.
pub fn sqlite_url(p: &str) -> (url: String)
    ensures
        url@ == "sqlite://"@ + p@,
{
    String::from_str("sqlite://").concat(p)
}

} // verus!
