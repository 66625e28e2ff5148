//! The fault log: an append-only, capacity-bounded trail of recorded
//! faults, with oldest-first eviction and a lifetime count that capacity
//! eviction never touches.

use vstd::prelude::*;
use crate::context::ErrorLogEntry;
use crate::context::create_error_context;
use crate::context::entry_for;
use crate::store::MAX_ERROR_LOG_SIZE;
use crate::store::Store;
use crate::taxonomy::ContractError;

verus! {

/// The fault log after appending one entry: the entry goes to the end, and
/// if the log would then exceed its capacity, the single oldest entry is
/// dropped and all others keep their relative order.
pub open spec fn log_after_record(log: Seq<ErrorLogEntry>, entry: ErrorLogEntry) -> Seq<
    ErrorLogEntry,
> {
    if log.len() + 1 > MAX_ERROR_LOG_SIZE {
        log.push(entry).drop_first()
    } else {
        log.push(entry)
    }
}

/// Classifies `error`, stamps it with the host-supplied logical `timestamp`
/// and the caller's hints, and appends the resulting entry to the fault log,
/// evicting the single oldest entry if the log is at capacity. The lifetime
/// fault count always grows by one, even when an entry is evicted. Retry
/// counters are untouched.
pub fn log_error(
    store: &mut Store,
    error: ContractError,
    user: Option<String>,
    resource_id: Option<String>,
    stack_trace: Option<String>,
    timestamp: u64,
)
    requires
        old(store).wf(),
        old(store).error_count < u64::MAX,
    ensures
        final(store).wf(),
        final(store).error_count == old(store).error_count + 1,
        final(store).error_log@.len() > 0,
        entry_for(
            final(store).error_log@.last(),
            error,
            user,
            resource_id,
            stack_trace,
            timestamp,
        ),
        final(store).error_log@ == log_after_record(
            old(store).error_log@,
            final(store).error_log@.last(),
        ),
        final(store).retry_counts == old(store).retry_counts,
{
    let context = create_error_context(error, user, resource_id, timestamp);
    let entry = ErrorLogEntry { error_code: error.code_id(), context, stack_trace };
    store.error_log.push(entry);
    if store.error_log.len() > MAX_ERROR_LOG_SIZE as usize {
        store.error_log.remove(0);
        proof {
            assert(store.error_log@ =~= old(store).error_log@.push(
                store.error_log@.last(),
            ).drop_first());
        }
    }
    store.error_count = store.error_count + 1;
}

/// The recorded fault log entries, oldest first; empty if none were
/// recorded since the last clear. Does not mutate the store.
pub fn get_error_log(store: &Store) -> (log: &Vec<ErrorLogEntry>)
    ensures
        log@ == store.error_log@,
{
    &store.error_log
}

/// The lifetime count of faults ever logged, independent of log
/// truncation; zero if never initialized or since the last clear.
pub fn get_error_count(store: &Store) -> (count: u64)
    ensures
        count == store.error_count,
{
    store.error_count
}

/// Removes the fault log entirely and resets the lifetime fault count to
/// zero. Retry counters are untouched.
pub fn clear_error_log(store: &mut Store)
    ensures
        final(store).error_log@ == Seq::<ErrorLogEntry>::empty(),
        final(store).error_count == 0,
        final(store).retry_counts == old(store).retry_counts,
        old(store).wf() ==> final(store).wf(),
{
    store.error_log = Vec::new();
    store.error_count = 0;
}

/// The fault log left behind by a run of consecutive appends, one call of
/// [`log_error`] per recorded entry, starting from `log`.
pub open spec fn log_after_records(log: Seq<ErrorLogEntry>, entries: Seq<ErrorLogEntry>) -> Seq<
    ErrorLogEntry,
>
    decreases entries.len(),
{
    if entries.len() == 0 {
        log
    } else {
        log_after_record(log_after_records(log, entries.drop_last()), entries.last())
    }
}

/// Recording up to the capacity: a run of `N <= 100` appends into an empty
/// log keeps every recorded entry, oldest first, so the log afterwards is
/// exactly the recorded sequence. Together with the fault count growing by
/// one per append, a fresh log holds `N` entries and counts `N` faults.
pub proof fn lemma_records_kept_in_order(entries: Seq<ErrorLogEntry>)
    requires
        entries.len() <= MAX_ERROR_LOG_SIZE,
    ensures
        log_after_records(Seq::<ErrorLogEntry>::empty(), entries) == entries,
    decreases entries.len(),
{
    if entries.len() > 0 {
        lemma_records_kept_in_order(entries.drop_last());
        assert(log_after_records(Seq::<ErrorLogEntry>::empty(), entries)
            == entries.drop_last().push(entries.last()));
        assert(entries.drop_last().push(entries.last()) =~= entries);
    }
}

/// Recording past the capacity: a run of `N > 100` appends into an empty
/// log evicts exactly the `N - 100` oldest entries, so the log afterwards
/// holds the last 100 recorded entries in order. For `N == 101` the entry
/// of the first call is absent and the second through the last are present
/// in order, while the fault count still counts all `N`.
pub proof fn lemma_records_evict_oldest(entries: Seq<ErrorLogEntry>)
    requires
        entries.len() > MAX_ERROR_LOG_SIZE,
    ensures
        log_after_records(Seq::<ErrorLogEntry>::empty(), entries) == entries.skip(
            entries.len() - MAX_ERROR_LOG_SIZE,
        ),
    decreases entries.len(),
{
    let cap = MAX_ERROR_LOG_SIZE as int;
    let prefix = entries.drop_last();
    if prefix.len() == cap {
        lemma_records_kept_in_order(prefix);
        assert(log_after_records(Seq::<ErrorLogEntry>::empty(), entries) == prefix.push(
            entries.last(),
        ).drop_first());
        assert(prefix.push(entries.last()).drop_first() =~= entries.skip(entries.len() - cap));
    } else {
        lemma_records_evict_oldest(prefix);
        assert(log_after_records(Seq::<ErrorLogEntry>::empty(), entries) == prefix.skip(
            prefix.len() - cap,
        ).push(entries.last()).drop_first());
        assert(prefix.skip(prefix.len() - cap).push(entries.last()).drop_first() =~= entries.skip(
            entries.len() - cap,
        ));
    }
}

} // verus!
