//! Log compaction: when to compact, and compacting the in-memory store by
//! dropping the entries a snapshot covers.
use crate::raft::config::CompactionConfig;
use crate::raft::log::LogId;
use crate::raft::storage::MemStoreInner;
use crate::raft::types::StateMachine;
use crate::time::{as_nanos, duration_nanos};
use std::time::Duration;
use vstd::prelude::*;

verus! {

/// The entries not yet applied: the last log index less the last applied
/// index, each 0 when absent, and 0 when the difference would be negative.
pub open spec fn pending_entries(last_log_index: Option<u64>, last_applied: Option<u64>) -> nat {
    let last: u64 = match last_log_index {
        Some(i) => i,
        None => 0,
    };
    let applied: u64 = match last_applied {
        Some(i) => i,
        None => 0,
    };
    if last >= applied {
        (last - applied) as nat
    } else {
        0
    }
}

/// Compaction is due once enough entries are pending or enough time has
/// passed since the last compaction.
pub open spec fn compaction_due(
    last_log_index: Option<u64>,
    last_applied: Option<u64>,
    since_last: Duration,
    config: CompactionConfig,
) -> bool {
    pending_entries(last_log_index, last_applied) >= config.log_entries_threshold
        || duration_nanos(since_last) >= duration_nanos(config.time_threshold)
}

/// Whether compaction is due, given the last log index and last applied
/// index that Raft reports and the time since the last compaction.
pub fn should_compact(
    last_log_index: Option<u64>,
    last_applied: Option<u64>,
    since_last: Duration,
    config: &CompactionConfig,
) -> (r: bool)
    ensures
        r == compaction_due(last_log_index, last_applied, since_last, *config),
{
    let last: u64 = match last_log_index {
        Some(i) => i,
        None => 0,
    };
    let applied: u64 = match last_applied {
        Some(i) => i,
        None => 0,
    };
    let log_entries = last.saturating_sub(applied);
    log_entries >= config.log_entries_threshold || as_nanos(&since_last) >= as_nanos(
        &config.time_threshold,
    )
}

/// Compacts the store: a snapshot covers the log up to the last applied
/// entry, so the entries up to it are purged and it becomes the last
/// purged entry. Nothing happens when no entry was applied. Returns the
/// entry up to which the log was purged.
pub fn perform_compaction<SM: StateMachine>(store: &mut MemStoreInner<SM>) -> (r: Option<LogId>)
    ensures
        r == old(store).state_machine_data.last_applied_log,
        match r {
            Some(id) => {
                &&& final(store).log@ == old(store).log@.restrict(Set::new(|x: u64| x > id.index))
                &&& final(store).last_purged_log_id == Some(id)
            },
            None => {
                &&& final(store).log@ == old(store).log@
                &&& final(store).last_purged_log_id == old(store).last_purged_log_id
            },
        },
        final(store).vote == old(store).vote,
        final(store).machine_state() == old(store).machine_state(),
{
    let meta = store.build_snapshot_meta();
    match meta.last_log_id {
        Some(id) => {
            store.purge_logs_upto(id);
            Some(id)
        },
        None => None,
    }
}

} // verus!
