//! The per-run bundle: exactly one fixed arena and one logger, constructed
//! once and owned exclusively by the code driving a run.

use vstd::prelude::*;

use crate::logger::Logger;
use crate::storage::DEFAULT_STORAGE_SIZE;
use crate::storage::TemporaryStorage;

verus! {

/// Co-owns the run's arena and logger. The two are independent: nothing here
/// ties them together beyond their shared lifetime, and the owner must
/// publish the logger before discarding the bundle or the buffered messages
/// are lost.
pub struct Context {
    /// The run's scratch arena.
    pub storage: TemporaryStorage,
    /// The run's logger, configured by the owner before first use.
    pub logger: Logger,
}

impl Context {
    /// Bundles a fresh default-capacity arena with an already-configured
    /// logger.
    pub fn new(logger: Logger) -> (c: Context)
        ensures
            c.storage.wf(),
            c.storage.data@ == Seq::new(DEFAULT_STORAGE_SIZE as nat, |i: int| 0u8),
            c.storage.data@.len() == DEFAULT_STORAGE_SIZE,
            c.storage.allocator.index == 0,
            c.storage.occupied == 0,
            c.storage.max_usage == 0,
            c.logger == logger,
    {
        Context { storage: TemporaryStorage::new(), logger }
    }
}

} // verus!
