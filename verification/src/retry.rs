//! The retry gate: a per-(caller, operation) bounded counter deciding
//! whether another attempt is permitted, with an explicit reset that
//! reclaims the counter's slot.

use vstd::prelude::*;
use crate::store::RetryCounter;
use crate::store::Store;
use crate::store::counter_key;
use crate::store::lemma_retry_map_absent;
use crate::store::lemma_retry_map_at;
use crate::store::lemma_retry_map_push;
use crate::store::lemma_retry_map_remove;
use crate::store::lemma_retry_map_update;
use crate::store::retry_map;

verus! {

/// The attempts the key `k` has consumed so far: the stored counter, or
/// zero when no counter is stored — absence and zero read the same.
pub open spec fn gate_count(m: Map<(Seq<char>, Seq<char>), u32>, k: (Seq<char>, Seq<char>)) -> u32 {
    if m.dom().contains(k) {
        m[k]
    } else {
        0
    }
}

/// Whether one more attempt is permitted for key `k` under the given
/// retry budget.
pub open spec fn gate_allows(
    m: Map<(Seq<char>, Seq<char>), u32>,
    k: (Seq<char>, Seq<char>),
    max_retries: u32,
) -> bool {
    gate_count(m, k) < max_retries
}

/// The retry counters after one consume for key `k`: the counter grows by
/// one when the attempt is permitted, and nothing changes when it is
/// refused.
pub open spec fn gate_after_consume(
    m: Map<(Seq<char>, Seq<char>), u32>,
    k: (Seq<char>, Seq<char>),
    max_retries: u32,
) -> Map<(Seq<char>, Seq<char>), u32> {
    if gate_allows(m, k, max_retries) {
        m.insert(k, (gate_count(m, k) + 1) as u32)
    } else {
        m
    }
}

/// The index of the stored retry counter for (caller, operation), if one
/// is stored.
fn find_counter(retries: &Vec<RetryCounter>, caller: &String, operation: &String) -> (idx: Option<
    usize,
>)
    ensures
        match idx {
            Some(i) => i < retries@.len() && counter_key(retries@[i as int]) == (
                caller@,
                operation@,
            ),
            None => forall|j: int|
                0 <= j < retries@.len() ==> #[trigger] counter_key(retries@[j]) != (
                    caller@,
                    operation@,
                ),
        },
{
    let mut i: usize = 0;
    while i < retries.len()
        invariant
            i <= retries@.len(),
            forall|j: int|
                0 <= j < i ==> #[trigger] counter_key(retries@[j]) != (caller@, operation@),
        decreases retries@.len() - i,
    {
        if retries[i].caller == *caller && retries[i].operation == *operation {
            return Some(i);
        }
        i = i + 1;
    }
    None
}

/// Consumes one retry attempt for (caller, operation) under the budget
/// `max_retries`: if the pair's counter has reached the budget the attempt
/// is refused and the store is left untouched; otherwise the counter grows
/// by one (starting implicitly from zero) and the attempt is permitted.
/// Counters of every other (caller, operation) pair, the fault log and the
/// fault count are unaffected.
pub fn retry_operation(
    store: &mut Store,
    caller: &String,
    operation: &String,
    max_retries: u32,
) -> (permitted: bool)
    requires
        old(store).wf(),
    ensures
        final(store).wf(),
        permitted == gate_allows(old(store).retry_map_view(), (caller@, operation@), max_retries),
        final(store).retry_map_view() == gate_after_consume(
            old(store).retry_map_view(),
            (caller@, operation@),
            max_retries,
        ),
        final(store).error_log == old(store).error_log,
        final(store).error_count == old(store).error_count,
        !permitted ==> *final(store) == *old(store),
{
    let ghost k = (caller@, operation@);
    match find_counter(&store.retry_counts, caller, operation) {
        Some(i) => {
            proof {
                lemma_retry_map_at(store.retry_counts@, i as int);
            }
            let count = store.retry_counts[i].count;
            if count >= max_retries {
                return false;
            }
            let ghost s0 = store.retry_counts@;
            store.retry_counts[i].count = count + 1;
            proof {
                assert(counter_key(store.retry_counts@[i as int]) == counter_key(s0[i as int]));
                lemma_retry_map_update(s0, i as int, store.retry_counts@[i as int]);
                assert(store.retry_counts@ =~= s0.update(
                    i as int,
                    store.retry_counts@[i as int],
                ));
            }
            true
        },
        None => {
            proof {
                lemma_retry_map_absent(store.retry_counts@, k);
            }
            if max_retries == 0 {
                return false;
            }
            let ghost s0 = store.retry_counts@;
            let fresh = RetryCounter {
                caller: caller.clone(),
                operation: operation.clone(),
                count: 1,
            };
            proof {
                lemma_retry_map_push(s0, fresh);
            }
            store.retry_counts.push(fresh);
            true
        },
    }
}

/// Deletes the retry counter for (caller, operation) entirely, so the
/// pair's next attempt starts again from zero; a pair with no stored
/// counter is left as it is. Counters of other pairs, the fault log and
/// the fault count are unaffected.
pub fn reset_retry_count(store: &mut Store, caller: &String, operation: &String)
    requires
        old(store).wf(),
    ensures
        final(store).wf(),
        final(store).retry_map_view() == old(store).retry_map_view().remove((caller@, operation@)),
        final(store).error_log == old(store).error_log,
        final(store).error_count == old(store).error_count,
{
    let ghost k = (caller@, operation@);
    match find_counter(&store.retry_counts, caller, operation) {
        Some(i) => {
            proof {
                lemma_retry_map_remove(store.retry_counts@, i as int);
            }
            store.retry_counts.remove(i);
        },
        None => {
            proof {
                lemma_retry_map_absent(store.retry_counts@, k);
                assert(retry_map(store.retry_counts@) =~= retry_map(store.retry_counts@).remove(
                    k,
                ));
            }
        },
    }
}

/// The retry counters after `n` consecutive consumes for the same key
/// under the same budget.
pub open spec fn gate_after_n_consumes(
    m: Map<(Seq<char>, Seq<char>), u32>,
    k: (Seq<char>, Seq<char>),
    max_retries: u32,
    n: nat,
) -> Map<(Seq<char>, Seq<char>), u32>
    decreases n,
{
    if n == 0 {
        m
    } else {
        gate_after_consume(gate_after_n_consumes(m, k, max_retries, (n - 1) as nat), k, max_retries)
    }
}

/// Exhausting a budget: consuming attempts for one key from an absent or
/// reset counter permits exactly the first `max_retries` attempts and
/// refuses every attempt after them — after `n` permitted attempts the
/// counter reads `n`, and the next attempt is permitted exactly while
/// `n < max_retries`.
pub proof fn lemma_gate_exhausts(
    m: Map<(Seq<char>, Seq<char>), u32>,
    k: (Seq<char>, Seq<char>),
    max_retries: u32,
    n: u32,
)
    requires
        !m.dom().contains(k),
        n <= max_retries,
    ensures
        gate_count(gate_after_n_consumes(m, k, max_retries, n as nat), k) == n,
        gate_allows(gate_after_n_consumes(m, k, max_retries, n as nat), k, max_retries) <==> n
            < max_retries,
    decreases n,
{
    if n == 0 {
    } else {
        lemma_gate_exhausts(m, k, max_retries, (n - 1) as u32);
    }
}

/// Independence of budgets: a consume for one key neither changes another
/// key's counter nor whether the other key's attempts are permitted, so
/// one pair exhausting its budget cannot block a different caller or a
/// different operation.
pub proof fn lemma_gate_independent(
    m: Map<(Seq<char>, Seq<char>), u32>,
    k: (Seq<char>, Seq<char>),
    other: (Seq<char>, Seq<char>),
    max_retries: u32,
    other_max: u32,
)
    requires
        k != other,
    ensures
        gate_count(gate_after_consume(m, k, max_retries), other) == gate_count(m, other),
        gate_allows(gate_after_consume(m, k, max_retries), other, other_max) == gate_allows(
            m,
            other,
            other_max,
        ),
{
}

/// Reset restarts the budget: after the counter for a key is removed, an
/// attempt for that key under any positive budget is permitted again.
pub proof fn lemma_reset_restarts(
    m: Map<(Seq<char>, Seq<char>), u32>,
    k: (Seq<char>, Seq<char>),
    max_retries: u32,
)
    requires
        max_retries > 0,
    ensures
        gate_allows(m.remove(k), k, max_retries),
{
}

} // verus!
