//! The health probe's one decision.

use vstd::prelude::*;

verus! {

/// Whether the probe query's result rows show a healthy store: a first
/// row that carries the probe value 1.
pub fn probe_succeeded(rows: &Vec<u8>) -> (r: bool)
    ensures
        r == (rows@.len() > 0 && rows@[0] == 1),
{
    rows.len() > 0 && rows[0] == 1
}

} // verus!
