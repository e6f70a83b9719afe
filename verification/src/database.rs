//! The storage collaborator: an opaque connection handle that repositories
//! acquire and hold.  No query protocol is defined against it here.

use vstd::prelude::*;

verus! {

/// An opaque handle to the backing store.
pub struct DatabaseConnection;

/// Owner of a storage connection, lending it out to repositories.
pub struct Database {
    conn: DatabaseConnection,
}

impl Database {
    pub fn new(conn: DatabaseConnection) -> Self {
        Self { conn }
    }

    pub fn conn(&self) -> &DatabaseConnection {
        &self.conn
    }
}

} // verus!
