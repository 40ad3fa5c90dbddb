//! Bookkeeping for block-range sync sessions: the shared progress record and the
//! transitions that a sync coordinator applies to it while holding its lock.

pub mod sync_status;
pub mod session;
