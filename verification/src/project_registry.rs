//! The project registry capability and its cache-aside decoration: reads
//! go to the cache first, fall through to the registry on a miss or a
//! cache failure, and freshly fetched records — absent ones included — are
//! written back under the fixed expiry.

use crate::cache::{cache_lookup, write_back, Cached, Output};
use crate::clone_project_data_opt;
use crate::kv::{live_value, TtlKv, TTL_SECS};
use crate::{ProjectData, ProjectId};
use vstd::prelude::*;

verus! {

/// Capability to fetch what the registry knows of a project. The remote
/// registry is slow and rate-limited; a fetch may fail or find no project.
pub trait ProjectRegistry {
    fn project_data(&self, id: &ProjectId) -> Result<Option<ProjectData>, String>;
}

impl<R: ProjectRegistry> Cached<R, TtlKv<Option<ProjectData>>> {
    /// The cache-aside read of a project record at time `now`:
    ///
    /// 1. a live cache entry — a cached negative included — is served
    ///    as-is, without consulting the registry;
    /// 2. otherwise the registry is fetched; its failure is the failure of
    ///    the read;
    /// 3. a fetched answer is written back with the fixed expiry, an
    ///    absent one as a cached negative.
    pub fn project_data(&mut self, id: &ProjectId, now: u64) -> (r: Result<
        Option<ProjectData>,
        String,
    >)
        requires
            now + TTL_SECS <= u64::MAX,
        ensures
            live_value(old(self).cache@, id@, now) matches Some(dv) ==> (r matches Ok(v)
                && v.deep_view() == dv && final(self).cache@ == old(self).cache@),
            r matches Ok(v) ==> (live_value(old(self).cache@, id@, now) is None
                ==> final(self).cache@ == old(self).cache@.insert(
                id@,
                (v.deep_view(), (now + TTL_SECS) as u64),
            )),
            live_value(old(self).cache@, id@, now) is None && r is Err ==> final(self).cache@
                == old(self).cache@,
    {
        match cache_lookup(&self.cache, id.as_str(), now) {
            Output::Hit(v) => Ok(clone_project_data_opt(v)),
            Output::Miss => {
                match self.inner.project_data(id) {
                    Ok(v) => {
                        let stored = clone_project_data_opt(&v);
                        write_back(&mut self.cache, id.as_str(), stored, now);
                        Ok(v)
                    },
                    Err(e) => Err(e),
                }
            },
        }
    }
}

} // verus!
