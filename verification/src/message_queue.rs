//! The messaging collaborator: an opaque connection handle with the same
//! shape as the storage one, held by repositories but never interpreted.

use vstd::prelude::*;

verus! {

/// An opaque handle to the message queue.
pub struct MessageQueueConnection;

/// Owner of a message-queue connection, lending it out to repositories.
pub struct MessageQueue {
    conn: MessageQueueConnection,
}

impl MessageQueue {
    pub fn new(conn: MessageQueueConnection) -> Self {
        Self { conn }
    }

    pub fn conn(&self) -> &MessageQueueConnection {
        &self.conn
    }
}

} // verus!
