//! Join handles for waiting on thread completion.

use vstd::prelude::*;
use super::ThreadId;

verus! {

/// A handle that can be used to wait for a thread to complete.
///
/// The handle carries the thread's identity; the kernel façade answers
/// queries about the thread it names (see the kernel's `try_join`), since
/// the kernel owns every thread record.  Dropping the handle does not affect
/// the thread.
pub struct JoinHandle {
    pub thread_id: ThreadId,
}

impl JoinHandle {
    /// The ID of the thread this handle refers to.
    pub fn thread_id(&self) -> (r: ThreadId)
        ensures
            r == self.thread_id,
    {
        self.thread_id
    }
}

} // verus!
