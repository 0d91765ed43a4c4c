//! Attestation storage: a capability for writing and reading attestations
//! with a fixed validity window, an in-memory reference store over the
//! TTL key/value model, and the interpretation of an HTTP key/value
//! backend's answers.

use crate::kv::{live_value, TtlKv, TTL_SECS};
use vstd::prelude::*;

verus! {

/// Failure of a key/value backend serving an attestation store.
#[derive(Clone, Debug)]
pub enum StoreError {
    /// Connection, pool or command failure, with its context message.
    Backend(String),
    /// An HTTP backend answered with an unexpected status code.
    Status(u16),
}

/// Capability to record which origin loaded a given widget and to look that
/// origin up again, as long as the record has not expired. The clock is
/// injected: `now` is the current time in seconds.
pub trait AttestationStore {
    fn set_attestation(&mut self, id: &str, origin: &str, now: u64) -> Result<(), StoreError>;

    fn get_attestation(&self, id: &str, now: u64) -> Result<Option<String>, StoreError>;
}

/// In-memory attestation store: the reference implementation of the store's
/// contract, with the fixed validity window applied to every write.
pub struct MemoryStore {
    kv: TtlKv<String>,
}

impl View for MemoryStore {
    type V = Map<Seq<char>, (Seq<char>, u64)>;

    closed spec fn view(&self) -> Map<Seq<char>, (Seq<char>, u64)> {
        self.kv@
    }
}

impl MemoryStore {
    /// An empty store: no attestation is present.
    pub fn new() -> (r: MemoryStore)
        ensures
            r@ == Map::<Seq<char>, (Seq<char>, u64)>::empty(),
    {
        MemoryStore { kv: TtlKv::new() }
    }

    /// Records `origin` under `id`; the record expires at `now + TTL_SECS`.
    pub fn set(&mut self, id: &str, origin: &str, now: u64) -> (r: Result<(), StoreError>)
        requires
            now + TTL_SECS <= u64::MAX,
        ensures
            r is Ok,
            final(self)@ == old(self)@.insert(id@, (origin@, (now + TTL_SECS) as u64)),
    {
        self.kv.set_ex(id, origin.to_owned(), TTL_SECS, now);
        Ok(())
    }

    /// Looks `id` up at time `now`: the recorded origin while the record
    /// is live, absent afterwards.
    pub fn get(&self, id: &str, now: u64) -> (r: Result<Option<String>, StoreError>)
        ensures
            r matches Ok(o) && (match live_value(self@, id@, now) {
                Some(origin) => o matches Some(s) && s@ == origin,
                None => o is None,
            }),
    {
        match self.kv.get(id, now) {
            Some(origin) => Ok(Some(origin.clone())),
            None => Ok(None),
        }
    }
}

impl AttestationStore for MemoryStore {
    fn set_attestation(&mut self, id: &str, origin: &str, now: u64) -> (r: Result<(), StoreError>)
        ensures
            now + TTL_SECS <= u64::MAX ==> (r is Ok && final(self)@ == old(self)@.insert(
                id@,
                (origin@, (now + TTL_SECS) as u64),
            )),
            now + TTL_SECS > u64::MAX ==> (r is Err && final(self)@ == old(self)@),
    {
        if now > u64::MAX - TTL_SECS {
            return Err(StoreError::Backend("clock out of range".to_owned()));
        }
        self.set(id, origin, now)
    }

    fn get_attestation(&self, id: &str, now: u64) -> (r: Result<Option<String>, StoreError>)
        ensures
            r matches Ok(o) && (match live_value(self@, id@, now) {
                Some(origin) => o matches Some(s) && s@ == origin,
                None => o is None,
            }),
    {
        self.get(id, now)
    }
}

/// Whether an HTTP status code reports success.
pub open spec fn spec_status_success(status: u16) -> bool {
    200 <= status < 300
}

/// Interprets an HTTP key/value backend's answer to a write: any success
/// status is a completed write, anything else fails the call.
pub fn http_kv_set_outcome(status: u16) -> (r: Result<(), StoreError>)
    ensures
        spec_status_success(status) ==> r is Ok,
        !spec_status_success(status) ==> r == Err::<(), StoreError>(StoreError::Status(status)),
{
    if 200 <= status && status < 300 {
        Ok(())
    } else {
        Err(StoreError::Status(status))
    }
}

/// Interprets an HTTP key/value backend's answer to a read: a success
/// status carries the stored value in the body, a `404` means the key is
/// absent, and anything else fails the call.
pub fn http_kv_get_outcome(status: u16, body: String) -> (r: Result<Option<String>, StoreError>)
    ensures
        spec_status_success(status) ==> (r matches Ok(o) && o matches Some(s) && s == body),
        status == 404 ==> r == Ok::<Option<String>, StoreError>(None),
        !spec_status_success(status) && status != 404 ==> r == Err::<Option<String>, StoreError>(
            StoreError::Status(status),
        ),
{
    if 200 <= status && status < 300 {
        Ok(Some(body))
    } else if status == 404 {
        Ok(None)
    } else {
        Err(StoreError::Status(status))
    }
}

/// Attestation lifetime: a record written at time `t` is read back exactly
/// as written at any time before `t + TTL_SECS`, and is absent from then
/// on. There is no explicit delete.
pub proof fn attestation_expiry(
    m: Map<Seq<char>, (Seq<char>, u64)>,
    id: Seq<char>,
    origin: Seq<char>,
    t: u64,
    now: u64,
)
    requires
        t + TTL_SECS <= u64::MAX,
    ensures
        now < t + TTL_SECS ==> live_value(m.insert(id, (origin, (t + TTL_SECS) as u64)), id, now)
            == Some(origin),
        now >= t + TTL_SECS ==> live_value(m.insert(id, (origin, (t + TTL_SECS) as u64)), id, now)
            is None,
{
}

} // verus!
