//! Warehouse bookkeeping for a comic shop: the records that are kept, the
//! statements that read and write the store, the search of the online book
//! catalogue, and the state of the window in which all of it is shown.

pub mod types;
pub mod text;
pub mod statement;
pub mod catalogue;
pub mod model;

use vstd::prelude::*;

verus! {

/// Where the comic store lives.
pub const SQLITE_CONNECTION_STRING: &'static str = "sqlite://comics.db";

} // verus!
