//! The durable store: an explicit model of the service instance's key-value
//! storage, holding the named slots this core uses — the fault log, the
//! lifetime fault count, and one retry counter per (caller, operation) pair.
//!
//! The host persists these slots between invocations; every operation takes
//! the store as an argument, so the core never touches ambient global state
//! and can be exercised against a freshly built store.

use vstd::prelude::*;
use crate::context::ErrorLogEntry;

verus! {

/// Capacity bound of the fault log: an append that would exceed it evicts
/// the single oldest entry.
pub const MAX_ERROR_LOG_SIZE: u32 = 100;

/// One persisted retry counter: how many attempts the pair
/// (caller identity, operation name) has consumed so far.
#[derive(Clone, Debug)]
pub struct RetryCounter {
    pub caller: String,
    pub operation: String,
    pub count: u32,
}

/// The (caller, operation) key under which a retry counter is stored.
pub open spec fn counter_key(c: RetryCounter) -> (Seq<char>, Seq<char>) {
    (c.caller@, c.operation@)
}

/// No two stored retry counters share a (caller, operation) key, so a key
/// never aliases two slots.
pub open spec fn unique_keys(s: Seq<RetryCounter>) -> bool {
    forall|i: int, j: int|
        #![trigger counter_key(s[i]), counter_key(s[j])]
        0 <= i < s.len() && 0 <= j < s.len() && i != j ==> counter_key(s[i]) != counter_key(s[j])
}

/// The mathematical content of the stored retry counters: a finite map from
/// (caller, operation) keys to counts. A key is absent exactly when no
/// counter is stored for it.
pub open spec fn retry_map(s: Seq<RetryCounter>) -> Map<(Seq<char>, Seq<char>), u32> {
    Map::new(
        |k: (Seq<char>, Seq<char>)|
            exists|i: int| 0 <= i < s.len() && #[trigger] counter_key(s[i]) == k,
        |k: (Seq<char>, Seq<char>)|
            s[choose|i: int| 0 <= i < s.len() && #[trigger] counter_key(s[i]) == k].count,
    )
}

/// The durable storage slots owned by this core.
pub struct Store {
    /// The fault log slot: insertion-ordered, oldest first. An absent slot
    /// reads as the empty log, so it is modeled as an empty vector.
    pub error_log: Vec<ErrorLogEntry>,
    /// The lifetime fault count slot; an absent slot reads as zero.
    pub error_count: u64,
    /// The retry counter slots, one per (caller, operation) pair that has
    /// consumed at least one attempt since its last reset.
    pub retry_counts: Vec<RetryCounter>,
}

impl Store {
    /// The store's invariant: the fault log never exceeds its capacity, and
    /// retry counter keys never alias.
    pub open spec fn wf(self) -> bool {
        &&& self.error_log@.len() <= MAX_ERROR_LOG_SIZE
        &&& unique_keys(self.retry_counts@)
    }

    /// The retry counters as a map from (caller, operation) to count.
    pub open spec fn retry_map_view(self) -> Map<(Seq<char>, Seq<char>), u32> {
        retry_map(self.retry_counts@)
    }

    /// A store whose every slot is absent: empty log, zero count, no retry
    /// counters.
    pub fn new() -> (s: Store)
        ensures
            s.wf(),
            s.error_log@ == Seq::<ErrorLogEntry>::empty(),
            s.error_count == 0,
            s.retry_counts@ == Seq::<RetryCounter>::empty(),
            s.retry_map_view() == Map::<(Seq<char>, Seq<char>), u32>::empty(),
    {
        let s = Store { error_log: Vec::new(), error_count: 0, retry_counts: Vec::new() };
        proof {
            assert(s.retry_map_view() =~= Map::<(Seq<char>, Seq<char>), u32>::empty());
        }
        s
    }
}

/// The counter stored at index `i` is what the retry map holds for its key.
pub proof fn lemma_retry_map_at(s: Seq<RetryCounter>, i: int)
    requires
        unique_keys(s),
        0 <= i < s.len(),
    ensures
        retry_map(s).dom().contains(counter_key(s[i])),
        retry_map(s)[counter_key(s[i])] == s[i].count,
{
    let k = counter_key(s[i]);
    assert(retry_map(s).dom().contains(k));
    let j = choose|j: int| 0 <= j < s.len() && #[trigger] counter_key(s[j]) == k;
    assert(j == i);
}

/// A key carried by no stored counter is absent from the retry map.
pub proof fn lemma_retry_map_absent(s: Seq<RetryCounter>, k: (Seq<char>, Seq<char>))
    requires
        forall|i: int| 0 <= i < s.len() ==> #[trigger] counter_key(s[i]) != k,
    ensures
        !retry_map(s).dom().contains(k),
{
}

/// Replacing the counter at index `i` with one carrying the same key updates
/// the retry map at exactly that key.
pub proof fn lemma_retry_map_update(s: Seq<RetryCounter>, i: int, c: RetryCounter)
    requires
        unique_keys(s),
        0 <= i < s.len(),
        counter_key(c) == counter_key(s[i]),
    ensures
        unique_keys(s.update(i, c)),
        retry_map(s.update(i, c)) == retry_map(s).insert(counter_key(c), c.count),
{
    let s2 = s.update(i, c);
    let k = counter_key(c);
    assert forall|a: int, b: int|
        0 <= a < s2.len() && 0 <= b < s2.len() && a != b implies #[trigger] counter_key(s2[a])
        != #[trigger] counter_key(s2[b]) by {
        assert(counter_key(s2[a]) == counter_key(s[a]));
        assert(counter_key(s2[b]) == counter_key(s[b]));
    }
    assert forall|k2: (Seq<char>, Seq<char>)| true implies retry_map(s2).dom().contains(k2)
        == retry_map(s).insert(k, c.count).dom().contains(k2) by {
        if k2 == k {
            assert(counter_key(s2[i]) == k2);
        } else {
            if exists|j: int| 0 <= j < s.len() && #[trigger] counter_key(s[j]) == k2 {
                let j = choose|j: int| 0 <= j < s.len() && #[trigger] counter_key(s[j]) == k2;
                assert(j != i);
                assert(counter_key(s2[j]) == k2);
            }
            if exists|j: int| 0 <= j < s2.len() && #[trigger] counter_key(s2[j]) == k2 {
                let j = choose|j: int| 0 <= j < s2.len() && #[trigger] counter_key(s2[j]) == k2;
                assert(j != i);
                assert(counter_key(s[j]) == k2);
            }
        }
    }
    assert forall|k2: (Seq<char>, Seq<char>)|
        retry_map(s2).dom().contains(k2) implies retry_map(s2)[k2] == retry_map(s).insert(
        k,
        c.count,
    )[k2] by {
        let j2 = choose|j: int| 0 <= j < s2.len() && #[trigger] counter_key(s2[j]) == k2;
        if k2 == k {
            assert(counter_key(s2[i]) == k2);
            assert(j2 == i);
        } else {
            assert(j2 != i);
            assert(counter_key(s[j2]) == k2);
            lemma_retry_map_at(s, j2);
        }
    }
    assert(retry_map(s2) =~= retry_map(s).insert(k, c.count));
}

/// Appending a counter whose key is not yet stored inserts exactly that key
/// into the retry map.
pub proof fn lemma_retry_map_push(s: Seq<RetryCounter>, c: RetryCounter)
    requires
        unique_keys(s),
        forall|i: int| 0 <= i < s.len() ==> #[trigger] counter_key(s[i]) != counter_key(c),
    ensures
        unique_keys(s.push(c)),
        retry_map(s.push(c)) == retry_map(s).insert(counter_key(c), c.count),
{
    let s2 = s.push(c);
    let k = counter_key(c);
    let n = s.len() as int;
    assert forall|a: int, b: int|
        0 <= a < s2.len() && 0 <= b < s2.len() && a != b implies #[trigger] counter_key(s2[a])
        != #[trigger] counter_key(s2[b]) by {
        if a < n && b < n {
            assert(counter_key(s2[a]) == counter_key(s[a]));
            assert(counter_key(s2[b]) == counter_key(s[b]));
        } else if a == n {
            assert(counter_key(s2[b]) == counter_key(s[b]));
        } else {
            assert(counter_key(s2[a]) == counter_key(s[a]));
        }
    }
    assert forall|k2: (Seq<char>, Seq<char>)| true implies retry_map(s2).dom().contains(k2)
        == retry_map(s).insert(k, c.count).dom().contains(k2) by {
        if k2 == k {
            assert(counter_key(s2[n]) == k2);
        } else {
            if exists|j: int| 0 <= j < s.len() && #[trigger] counter_key(s[j]) == k2 {
                let j = choose|j: int| 0 <= j < s.len() && #[trigger] counter_key(s[j]) == k2;
                assert(counter_key(s2[j]) == k2);
            }
            if exists|j: int| 0 <= j < s2.len() && #[trigger] counter_key(s2[j]) == k2 {
                let j = choose|j: int| 0 <= j < s2.len() && #[trigger] counter_key(s2[j]) == k2;
                assert(j != n);
                assert(counter_key(s[j]) == k2);
            }
        }
    }
    assert forall|k2: (Seq<char>, Seq<char>)|
        retry_map(s2).dom().contains(k2) implies retry_map(s2)[k2] == retry_map(s).insert(
        k,
        c.count,
    )[k2] by {
        let j2 = choose|j: int| 0 <= j < s2.len() && #[trigger] counter_key(s2[j]) == k2;
        if k2 == k {
            assert(counter_key(s2[n]) == k2);
            assert(j2 == n);
        } else {
            assert(j2 != n);
            assert(counter_key(s[j2]) == k2);
            lemma_retry_map_at(s, j2);
            lemma_retry_map_at(s2, j2);
        }
    }
    assert(retry_map(s2) =~= retry_map(s).insert(k, c.count));
}

/// Removing the counter at index `i` removes exactly its key from the retry
/// map.
pub proof fn lemma_retry_map_remove(s: Seq<RetryCounter>, i: int)
    requires
        unique_keys(s),
        0 <= i < s.len(),
    ensures
        unique_keys(s.remove(i)),
        retry_map(s.remove(i)) == retry_map(s).remove(counter_key(s[i])),
{
    let s2 = s.remove(i);
    let k = counter_key(s[i]);
    assert forall|a: int, b: int|
        0 <= a < s2.len() && 0 <= b < s2.len() && a != b implies #[trigger] counter_key(s2[a])
        != #[trigger] counter_key(s2[b]) by {
        let a0 = if a < i { a } else { a + 1 };
        let b0 = if b < i { b } else { b + 1 };
        assert(counter_key(s2[a]) == counter_key(s[a0]));
        assert(counter_key(s2[b]) == counter_key(s[b0]));
    }
    assert forall|k2: (Seq<char>, Seq<char>)| true implies retry_map(s2).dom().contains(k2)
        == retry_map(s).remove(k).dom().contains(k2) by {
        if k2 == k {
            if exists|j: int| 0 <= j < s2.len() && #[trigger] counter_key(s2[j]) == k2 {
                let j = choose|j: int| 0 <= j < s2.len() && #[trigger] counter_key(s2[j]) == k2;
                let j0 = if j < i { j } else { j + 1 };
                assert(counter_key(s[j0]) == k2);
                assert(j0 != i ==> counter_key(s[j0]) != counter_key(s[i]));
                assert(false);
            }
        } else {
            if exists|j: int| 0 <= j < s.len() && #[trigger] counter_key(s[j]) == k2 {
                let j = choose|j: int| 0 <= j < s.len() && #[trigger] counter_key(s[j]) == k2;
                assert(j != i);
                let j2 = if j < i { j } else { j - 1 };
                assert(counter_key(s2[j2]) == k2);
            }
            if exists|j: int| 0 <= j < s2.len() && #[trigger] counter_key(s2[j]) == k2 {
                let j = choose|j: int| 0 <= j < s2.len() && #[trigger] counter_key(s2[j]) == k2;
                let j0 = if j < i { j } else { j + 1 };
                assert(counter_key(s[j0]) == k2);
            }
        }
    }
    assert forall|k2: (Seq<char>, Seq<char>)|
        retry_map(s2).dom().contains(k2) implies retry_map(s2)[k2] == retry_map(s).remove(k)[k2] by {
        let j2 = choose|j: int| 0 <= j < s2.len() && #[trigger] counter_key(s2[j]) == k2;
        let j0 = if j2 < i { j2 } else { j2 + 1 };
        assert(counter_key(s[j0]) == k2);
        assert(k2 != k);
        lemma_retry_map_at(s, j0);
        assert(retry_map(s2)[k2] == s2[j2].count);
        assert(s2[j2] == s[j0]);
    }
    assert(retry_map(s2) =~= retry_map(s).remove(k));
}

} // verus!
