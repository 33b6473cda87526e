//! Row shapes of the target store, as read back from it.

use vstd::prelude::*;

verus! {

/// An author row of the target store.
pub struct User {
    pub id: String,
    pub name: String,
    pub slug: String,
    pub email: String,
    pub created_at: String,
}

/// A tag row of the target store.
pub struct Tags {
    pub id: String,
    pub name: String,
    pub slug: String,
}

/// A post row of the target store.
pub struct Post {
    pub id: String,
    pub title: String,
    pub slug: String,
    pub html: String,
    pub created_at: String,
    pub updated_at: String,
    pub status: String,
}

} // verus!
