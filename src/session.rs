use vstd::prelude::*;

use crate::sync_status::SyncStatus;

verus! {

/// Why a new sync session could not be started.
#[derive(Clone, Copy, Debug, PartialEq, Eq, Structural)]
pub enum SetupError {
    /// The range ascends: `start_block < end_block`.
    BlocksNotBackwards,
    /// The previous session already has the largest identifier there is.
    SyncIdExhausted,
}

/// The record of the session that follows `prev` over `start_block` down to `end_block`.
pub open spec fn next_session(prev: SyncStatus, start_block: u64, end_block: u64) -> SyncStatus {
    SyncStatus {
        sync_id: (prev.sync_id + 1) as u64,
        start_block,
        end_block,
        in_progress: true,
    }
}

/// Replaces the shared record with a fresh running session whose identifier follows
/// the previous one, whether or not that session was finished. A range that ascends
/// is refused and leaves the record as it was.
pub fn begin_session(status: &mut SyncStatus, start_block: u64, end_block: u64) -> (r: Result<
    (),
    SetupError,
>)
    ensures
        start_block < end_block ==> r == Err::<(), SetupError>(SetupError::BlocksNotBackwards),
        start_block >= end_block && old(status).sync_id == u64::MAX ==> r == Err::<
            (),
            SetupError,
        >(SetupError::SyncIdExhausted),
        r is Ok <==> start_block >= end_block && old(status).sync_id < u64::MAX,
        r is Ok ==> *final(status) == next_session(*old(status), start_block, end_block),
        r is Ok ==> final(status).sync_id == old(status).sync_id + 1,
        r is Ok ==> final(status).start_block >= final(status).end_block,
        r is Ok ==> final(status).wf(),
        r is Err ==> *final(status) == *old(status),
        old(status).wf() ==> final(status).wf(),
{
    if start_block < end_block {
        return Err(SetupError::BlocksNotBackwards);
    }
    if status.sync_id == u64::MAX {
        return Err(SetupError::SyncIdExhausted);
    }
    let prev = *status;
    *status = SyncStatus::new_session(prev.sync_id + 1, start_block, end_block);
    Ok(())
}

/// The next session's identifier is the previous one plus one, and the new record
/// is the same whether or not the previous session was finished.
pub proof fn lemma_next_id_ignores_completion(
    prev: SyncStatus,
    start_block: u64,
    end_block: u64,
)
    requires
        start_block >= end_block,
        prev.sync_id < u64::MAX,
    ensures
        next_session(prev, start_block, end_block).sync_id == prev.sync_id + 1,
        next_session(prev, start_block, end_block).sync_id > prev.sync_id,
        next_session(prev.spec_finished(), start_block, end_block) == next_session(
            prev,
            start_block,
            end_block,
        ),
        next_session(prev, start_block, end_block).wf(),
{
}

} // verus!
