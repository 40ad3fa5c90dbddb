use vstd::prelude::*;

verus! {

/// Progress record of one sync session: which session it is, the block range it
/// covers (from the higher height down to the lower one), and whether it still runs.
#[derive(Clone, Copy, Debug, PartialEq, Eq, Structural)]
pub struct SyncStatus {
    pub sync_id: u64,
    pub start_block: u64,
    pub end_block: u64,
    pub in_progress: bool,
}

impl SyncStatus {
    /// A running session always covers a non-ascending range.
    pub open spec fn wf(self) -> bool {
        self.in_progress ==> self.start_block >= self.end_block
    }

    /// The record with the session marked as finished, all else kept.
    pub open spec fn spec_finished(self) -> SyncStatus {
        SyncStatus {
            sync_id: self.sync_id,
            start_block: self.start_block,
            end_block: self.end_block,
            in_progress: false,
        }
    }

    /// A running session `sync_id` over the blocks `start_block` down to `end_block`.
    pub fn new_session(sync_id: u64, start_block: u64, end_block: u64) -> (s: Self)
        requires
            start_block >= end_block,
        ensures
            s == (SyncStatus { sync_id, start_block, end_block, in_progress: true }),
            s.wf(),
    {
        SyncStatus { sync_id, start_block, end_block, in_progress: true }
    }

    /// Marks the session as finished; the identifier and the range stay.
    pub fn finish(&mut self)
        ensures
            *final(self) == old(self).spec_finished(),
            final(self).wf(),
    {
        self.in_progress = false;
    }

    pub fn is_finished(&self) -> (r: bool)
        ensures
            r == !self.in_progress,
    {
        !self.in_progress
    }
}

impl Default for SyncStatus {
    /// Session 0, no range, finished.
    fn default() -> (s: Self)
        ensures
            s == (SyncStatus { sync_id: 0, start_block: 0, end_block: 0, in_progress: false }),
    {
        SyncStatus { sync_id: 0, start_block: 0, end_block: 0, in_progress: false }
    }
}

/// Marking a session finished a second time changes nothing.
pub proof fn lemma_finish_idempotent(s: SyncStatus)
    ensures
        s.spec_finished().spec_finished() == s.spec_finished(),
{
}

} // verus!
