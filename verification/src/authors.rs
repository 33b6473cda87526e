//! Author payloads and the resolution of external author references.

use vstd::prelude::*;
use vstd::string::StringExecFns;

verus! {

/// An inbound author payload from the legacy source: the numeric id is
/// the external reference that the migration mapping is keyed on.
pub struct User {
    pub id: i32,
    pub name: String,
    pub email: String,
    pub login: String,
    pub password: String,
    pub created_at: String,
}

/// The well-known default author identity used when an external
/// reference has no entry in the migration mapping.
pub open spec fn fallback_author_id() -> Seq<char> {
    "1"@
}

/// Resolves an external author reference from the result of the
/// migration-mapping lookup: the mapped internal id when one exists, the
/// fixed fallback identity otherwise. Never an error — an unmapped
/// legacy author must not block the import.
pub fn resolve_author(mapped: Option<String>) -> (author_id: String)
    ensures
        match mapped {
            Some(id) => author_id == id,
            None => author_id@ == fallback_author_id(),
        },
{
    match mapped {
        Some(id) => id,
        None => String::from_str("1"),
    }
}

} // verus!
