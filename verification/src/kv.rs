//! An in-memory model of a key/value backend with per-entry expiry:
//! `SET key=value with TTL` and `GET key -> value|absent`, against an
//! injected clock. Entries are appended on every write and a lookup sees
//! the newest entry for its key, so a write simply shadows older ones.

use crate::text::str_eq;
use vstd::prelude::*;

verus! {

/// Expiry applied to every attestation and every cached registry lookup,
/// in seconds.
pub const TTL_SECS: u64 = 300;

struct KvEntry<T> {
    key: String,
    value: T,
    expires_at: u64,
}

/// Key/value store whose abstract state maps each key to the value stored
/// last, together with the moment that value expires.
pub struct TtlKv<T> {
    entries: Vec<KvEntry<T>>,
}

spec fn entries_map<T: DeepView>(s: Seq<KvEntry<T>>) -> Map<Seq<char>, (T::V, u64)>
    decreases s.len(),
{
    if s.len() == 0 {
        Map::empty()
    } else {
        entries_map(s.drop_last()).insert(
            s.last().key@,
            (s.last().value.deep_view(), s.last().expires_at),
        )
    }
}

/// The value a `GET` at time `now` observes: present exactly when the key
/// was stored and its expiry has not been reached yet.
pub open spec fn live_value<X>(m: Map<Seq<char>, (X, u64)>, key: Seq<char>, now: u64) -> Option<X> {
    if m.contains_key(key) && now < m[key].1 {
        Some(m[key].0)
    } else {
        None
    }
}

impl<T: DeepView> View for TtlKv<T> {
    type V = Map<Seq<char>, (T::V, u64)>;

    closed spec fn view(&self) -> Map<Seq<char>, (T::V, u64)> {
        entries_map(self.entries@)
    }
}

proof fn lemma_entries_map_found<T: DeepView>(s: Seq<KvEntry<T>>, i: int, k: Seq<char>)
    requires
        0 <= i < s.len(),
        s[i].key@ == k,
        forall|m: int| i < m < s.len() ==> s[m].key@ != k,
    ensures
        entries_map(s).contains_key(k),
        entries_map(s)[k] == (s[i].value.deep_view(), s[i].expires_at),
    decreases s.len(),
{
    if i == s.len() - 1 {
    } else {
        lemma_entries_map_found(s.drop_last(), i, k);
    }
}

proof fn lemma_entries_map_absent<T: DeepView>(s: Seq<KvEntry<T>>, k: Seq<char>)
    requires
        forall|m: int| 0 <= m < s.len() ==> s[m].key@ != k,
    ensures
        !entries_map(s).contains_key(k),
    decreases s.len(),
{
    if s.len() > 0 {
        lemma_entries_map_absent(s.drop_last(), k);
    }
}

impl<T: DeepView> TtlKv<T> {
    /// An empty store: every key is absent.
    pub fn new() -> (r: TtlKv<T>)
        ensures
            r@ == Map::<Seq<char>, (T::V, u64)>::empty(),
    {
        TtlKv { entries: Vec::new() }
    }

    /// `SET key value EX ttl_secs`: the key now maps to `value` until
    /// `now + ttl_secs`.
    pub fn set_ex(&mut self, key: &str, value: T, ttl_secs: u64, now: u64)
        requires
            now + ttl_secs <= u64::MAX,
        ensures
            final(self)@ == old(self)@.insert(
                key@,
                (value.deep_view(), (now + ttl_secs) as u64),
            ),
    {
        let ghost s0 = self.entries@;
        let entry = KvEntry { key: key.to_owned(), value, expires_at: now + ttl_secs };
        self.entries.push(entry);
        proof {
            assert(self.entries@.drop_last() =~= s0);
        }
    }

    /// `GET key`: the stored value, or nothing once the entry has expired
    /// or was never written.
    pub fn get(&self, key: &str, now: u64) -> (r: Option<&T>)
        ensures
            r matches Some(v) ==> live_value(self@, key@, now) == Some(v.deep_view()),
            r is None ==> live_value(self@, key@, now) is None,
    {
        let n = self.entries.len();
        let mut j = n;
        while j > 0
            invariant
                j <= n,
                n == self.entries.len(),
                forall|m: int| j <= m < n ==> self.entries@[m].key@ != key@,
            decreases j,
        {
            j -= 1;
            let entry = &self.entries[j];
            if str_eq(entry.key.as_str(), key) {
                proof {
                    lemma_entries_map_found(self.entries@, j as int, key@);
                }
                if now < entry.expires_at {
                    return Some(&entry.value);
                } else {
                    return None;
                }
            }
        }
        proof {
            lemma_entries_map_absent(self.entries@, key@);
        }
        None
    }
}

} // verus!
