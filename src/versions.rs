//! Versioning rules of the append-only strategy: which value entry of a key
//! is current, and which entries garbage collection discards.
//!
//! Entries are ordered by insertion time; two entries stamped in the same
//! millisecond are ordered by their surrogate id, so that reads and garbage
//! collection agree on a single current entry per key.
use vstd::prelude::*;

verus! {

/// Identity and insertion time (milliseconds since the Unix epoch) of one
/// value entry.
#[derive(Clone, Copy, PartialEq, Eq, Structural, Debug)]
pub struct Stamp {
    pub id: i64,
    pub key_id: i64,
    pub inserted_at: i64,
}

/// One stored version of a key's value.
#[derive(Clone, Debug)]
pub struct Version {
    pub stamp: Stamp,
    pub value: Vec<u8>,
}

/// `a` was written after `b`: later timestamp, or the same timestamp and a
/// larger surrogate id.
pub open spec fn later(a: Stamp, b: Stamp) -> bool {
    a.inserted_at > b.inserted_at || (a.inserted_at == b.inserted_at && a.id > b.id)
}

/// No entry of `s` was written after `s[i]`.
pub open spec fn is_newest(s: Seq<Stamp>, i: int) -> bool {
    &&& 0 <= i < s.len()
    &&& forall|j: int| 0 <= j < s.len() ==> !later(#[trigger] s[j], s[i])
}

/// Some entry of the same key was written after `s[i]`: garbage collection
/// discards `s[i]`.
pub open spec fn is_stale(s: Seq<Stamp>, i: int) -> bool {
    exists|j: int| 0 <= j < s.len() && (#[trigger] s[j]).key_id == s[i].key_id && later(s[j], s[i])
}

/// Surrogate ids are unique, as the engine's primary key keeps them.
pub open spec fn unique_ids(s: Seq<Stamp>) -> bool {
    forall|a: int, b: int| 0 <= a < s.len() && 0 <= b < s.len() && #[trigger] s[a].id == #[trigger] s[b].id ==> a == b
}

pub open spec fn stamps_of(vs: Seq<Version>) -> Seq<Stamp> {
    vs.map_values(|v: Version| v.stamp)
}

/// Entry `s[i]` of a key survives garbage collection and is the one a read
/// resolves to.
pub open spec fn is_current_of_key(s: Seq<Stamp>, i: int) -> bool {
    0 <= i < s.len() && !is_stale(s, i)
}

/// `a` was written after `b`, computed.
pub fn is_later(a: &Stamp, b: &Stamp) -> (r: bool)
    ensures
        r == later(*a, *b),
{
    a.inserted_at > b.inserted_at || (a.inserted_at == b.inserted_at && a.id > b.id)
}

/// The index of the current version among the versions of one key: the one
/// written last. `None` exactly when there is no version.
pub fn latest_version(versions: &Vec<Version>) -> (r: Option<usize>)
    ensures
        r is None <==> versions@.len() == 0,
        r matches Some(i) ==> is_newest(stamps_of(versions@), i as int),
{
    if versions.len() == 0 {
        return None;
    }
    let ghost s = stamps_of(versions@);
    let mut best: usize = 0;
    let mut i: usize = 1;
    while i < versions.len()
        invariant
            s == stamps_of(versions@),
            0 < i <= versions@.len(),
            best < i,
            forall|j: int| 0 <= j < i ==> !later(#[trigger] s[j], s[best as int]),
        decreases versions@.len() - i,
    {
        if is_later(&versions[i].stamp, &versions[best].stamp) {
            best = i;
        }
        i = i + 1;
    }
    Some(best)
}

/// Whether some entry of the same key was written after `stamps[i]`.
pub fn superseded(stamps: &Vec<Stamp>, i: usize) -> (r: bool)
    requires
        i < stamps@.len(),
    ensures
        r == is_stale(stamps@, i as int),
{
    let mut j: usize = 0;
    while j < stamps.len()
        invariant
            i < stamps@.len(),
            j <= stamps@.len(),
            forall|k: int| 0 <= k < j ==> !((#[trigger] stamps@[k]).key_id == stamps@[i as int].key_id && later(stamps@[k], stamps@[i as int])),
        decreases stamps@.len() - j,
    {
        if stamps[j].key_id == stamps[i].key_id && is_later(&stamps[j], &stamps[i]) {
            return true;
        }
        j = j + 1;
    }
    false
}

/// The ids of the entries that garbage collection discards: every entry for
/// which an entry of the same key was written later.
pub fn garbage(stamps: &Vec<Stamp>) -> (r: Vec<i64>)
    ensures
        forall|x: i64| r@.contains(x) <==> exists|i: int| 0 <= i < stamps@.len() && (#[trigger] stamps@[i]).id == x && is_stale(stamps@, i),
{
    let mut out: Vec<i64> = Vec::new();
    let mut i: usize = 0;
    while i < stamps.len()
        invariant
            i <= stamps@.len(),
            forall|x: i64| out@.contains(x) <==> exists|k: int| 0 <= k < i && (#[trigger] stamps@[k]).id == x && is_stale(stamps@, k),
        decreases stamps@.len() - i,
    {
        let ghost before = out@;
        let stale = superseded(stamps, i);
        if stale {
            out.push(stamps[i].id);
        }
        proof {
            assert forall|x: i64| out@.contains(x) <==> exists|k: int| 0 <= k < i + 1 && (#[trigger] stamps@[k]).id == x && is_stale(stamps@, k) by {
                if stale {
                    assert(out@ == before.push(stamps@[i as int].id));
                    if out@.contains(x) && !before.contains(x) {
                        let w = choose|w: int| 0 <= w < out@.len() && out@[w] == x;
                        assert(w == before.len());
                    }
                    if before.contains(x) {
                        let w = choose|w: int| 0 <= w < before.len() && before[w] == x;
                        assert(out@[w] == x);
                    }
                    if x == stamps@[i as int].id {
                        assert(out@[before.len() as int] == x);
                    }
                }
            }
        }
        i = i + 1;
    }
    out
}

/// A write appends an entry with a fresh, larger surrogate id, at a time no
/// earlier than any stored entry of the key. A read that follows resolves to
/// that entry and to no other.
pub proof fn lemma_read_after_write(s: Seq<Stamp>, e: Stamp)
    requires
        forall|j: int| 0 <= j < s.len() ==> (#[trigger] s[j]).inserted_at <= e.inserted_at && s[j].id < e.id,
    ensures
        is_newest(s.push(e), s.len() as int),
        forall|i: int| 0 <= i < s.len() ==> !is_newest(s.push(e), i),
{
    let t = s.push(e);
    assert forall|j: int| 0 <= j < t.len() implies !later(#[trigger] t[j], t[s.len() as int]) by {
        if j < s.len() {
            assert(t[j] == s[j]);
        }
    }
    assert forall|i: int| 0 <= i < s.len() implies !is_newest(t, i) by {
        assert(t[i] == s[i]);
        assert(later(t[s.len() as int], t[i]));
    }
}

/// The index of the entry of `key_id` written last among `s[0..n]`, or -1
/// where that prefix holds none.
pub open spec fn newest_in_prefix(s: Seq<Stamp>, key_id: i64, n: int) -> int
    decreases n,
{
    if n <= 0 {
        -1
    } else {
        let k = newest_in_prefix(s, key_id, n - 1);
        if s[n - 1].key_id == key_id && (k < 0 || later(s[n - 1], s[k])) {
            n - 1
        } else {
            k
        }
    }
}

proof fn lemma_newest_in_prefix(s: Seq<Stamp>, key_id: i64, n: int)
    requires
        0 <= n <= s.len(),
    ensures
        newest_in_prefix(s, key_id, n) == -1 ==> forall|j: int| 0 <= j < n ==> (#[trigger] s[j]).key_id != key_id,
        newest_in_prefix(s, key_id, n) != -1 ==> {
            let k = newest_in_prefix(s, key_id, n);
            &&& 0 <= k < n
            &&& s[k].key_id == key_id
            &&& forall|j: int| 0 <= j < n && (#[trigger] s[j]).key_id == key_id ==> !later(s[j], s[k])
        },
    decreases n,
{
    if n > 0 {
        lemma_newest_in_prefix(s, key_id, n - 1);
    }
}

/// Garbage collection keeps, of every key that has entries, exactly one
/// entry, and that entry is the one written last: a read after the
/// collection returns what it returned before.
pub proof fn lemma_collect_garbage_keeps_current(s: Seq<Stamp>)
    requires
        unique_ids(s),
    ensures
        forall|i: int| #![trigger s[i]] 0 <= i < s.len() ==> {
            let k = newest_in_prefix(s, s[i].key_id, s.len() as int);
            is_current_of_key(s, k) && s[k].key_id == s[i].key_id
        },
        forall|a: int, b: int| #[trigger] is_current_of_key(s, a) && #[trigger] is_current_of_key(s, b) && s[a].key_id == s[b].key_id ==> a == b,
        forall|k: int, j: int| #[trigger] is_current_of_key(s, k) && 0 <= j < s.len() && (#[trigger] s[j]).key_id == s[k].key_id ==> !later(s[j], s[k]),
{
    assert forall|i: int| #![trigger s[i]] 0 <= i < s.len() implies {
        let k = newest_in_prefix(s, s[i].key_id, s.len() as int);
        is_current_of_key(s, k) && s[k].key_id == s[i].key_id
    } by {
        let key_id = s[i].key_id;
        lemma_newest_in_prefix(s, key_id, s.len() as int);
        let k = newest_in_prefix(s, key_id, s.len() as int);
        assert(s[i].key_id == key_id);
        assert(is_current_of_key(s, k));
    }
    assert forall|a: int, b: int| #[trigger] is_current_of_key(s, a) && #[trigger] is_current_of_key(s, b) && s[a].key_id == s[b].key_id implies a == b by {
        assert(!later(s[a], s[b]));
        assert(!later(s[b], s[a]));
        assert(s[a].id == s[b].id);
    }
    assert forall|k: int, j: int| #[trigger] is_current_of_key(s, k) && 0 <= j < s.len() && (#[trigger] s[j]).key_id == s[k].key_id implies !later(s[j], s[k]) by {
        if later(s[j], s[k]) {
            assert(is_stale(s, k));
        }
    }
}

/// Some entry of `s` under the same key was written after `e`.
pub open spec fn superseded_in(s: Seq<Stamp>, e: Stamp) -> bool {
    exists|j: int| 0 <= j < s.len() && (#[trigger] s[j]).key_id == e.key_id && later(s[j], e)
}

/// What garbage collection leaves of `s`: the entries that are not stale,
/// in their order.
pub open spec fn survivors(s: Seq<Stamp>) -> Seq<Stamp> {
    s.filter(|e: Stamp| !superseded_in(s, e))
}

/// A second garbage collection finds nothing to discard: no entry that the
/// first one left is stale.
pub proof fn lemma_collect_garbage_idempotent(s: Seq<Stamp>)
    ensures
        forall|k: int| 0 <= k < survivors(s).len() ==> !is_stale(survivors(s), k),
{
    let p = |e: Stamp| !superseded_in(s, e);
    let t = survivors(s);
    assert(t == s.filter(p));
    s.filter_lemma(p);
    assert forall|k: int| 0 <= k < t.len() implies !is_stale(t, k) by {
        if is_stale(t, k) {
            let j = choose|j: int| 0 <= j < t.len() && (#[trigger] t[j]).key_id == t[k].key_id && later(t[j], t[k]);
            assert(t.contains(t[j]));
            s.lemma_filter_contains_rev(p, t[j]);
            let m = choose|m: int| 0 <= m < s.len() && s[m] == t[j];
            assert(s[m].key_id == t[k].key_id && later(s[m], t[k]));
            assert(superseded_in(s, t[k]));
            assert(p(t[k]));
        }
    }
}

/// An entry is stale exactly when it is superseded, so the entries that
/// `garbage` names are exactly those that `survivors` drops.
pub proof fn lemma_stale_is_superseded(s: Seq<Stamp>, i: int)
    requires
        0 <= i < s.len(),
    ensures
        is_stale(s, i) == superseded_in(s, s[i]),
        !is_stale(s, i) ==> survivors(s).contains(s[i]),
{
    s.filter_lemma(|e: Stamp| !superseded_in(s, e));
}

} // verus!
