//! What an evaluator works on.

use crate::enqueue::NotificationRequest;
use crate::repository::StorageConnection;
use vstd::prelude::*;

verus! {

/// What an evaluator works on: the storage, and the notifications that
/// wait to be rendered. An evaluator adds its notifications at the end of
/// `outbox`.
pub struct ServiceContext {
    pub connection: StorageConnection,
    pub outbox: Vec<NotificationRequest>,
}

impl ServiceContext {
    /// A context on `connection` in which no notification waits.
    pub fn new(connection: StorageConnection) -> (context: ServiceContext)
        ensures
            context.connection == connection,
            context.outbox@.len() == 0,
    {
        ServiceContext { connection, outbox: Vec::new() }
    }
}

} // verus!
