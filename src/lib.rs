//! Backend core of a small desktop timer: a lookup cache for the bundled
//! sound assets, and the planning and failure policy of desktop notifications.

use vstd::prelude::*;

pub mod cache;
pub mod notify;

verus! {

} // verus!
