//! The scam guard capability: whether a domain hosts a scam dApp. Covers
//! the decisions of the remote data API client — which host to ask about,
//! and what its answer means — and the cache-aside decoration of the
//! verdicts.

use crate::cache::{cache_lookup, write_back, Cached, Output};
use crate::kv::{live_value, TtlKv, TTL_SECS};
use crate::IsScam;
use vstd::prelude::*;
use vstd::string::StringExecFns;

verus! {

/// Capability to check whether the provided domain is a scam dApp or not.
pub trait ScamGuard {
    fn is_scam(&self, domain: &str) -> Result<IsScam, String>;
}

/// The host component of a URL, as URL parsing extracts it: a function of
/// the input string alone, or nothing when the input is no URL or has no
/// host.
pub uninterp spec fn url_host(s: Seq<char>) -> Option<Seq<char>>;

/// Relies on `url::Url::parse` and `url::Url::host_str`: parsing either
/// fails or yields a URL whose optional host component is a function of
/// the input string alone.
#[verifier::external_body]
fn origin_host(origin: &str) -> (r: Option<String>)
    ensures
        r matches Some(h) ==> url_host(origin@) == Some(h@),
        r is None ==> url_host(origin@) is None,
{
    url::Url::parse(origin).ok().and_then(|u| u.host_str().map(|h| h.to_owned()))
}

/// Which host the data API is asked about for an origin: none when the
/// origin is no URL or names no host — the check is then skipped and the
/// verdict stays `Unknown`.
pub fn scam_check_target(origin: &str) -> (r: Option<String>)
    ensures
        r matches Some(h) ==> url_host(origin@) == Some(h@),
        r is None ==> url_host(origin@) is None,
{
    origin_host(origin)
}

/// The query URL the data API is asked, for a base URL and a host.
pub fn data_api_query_url(base: &str, host: &str) -> (r: String)
    ensures
        r@ == base@ + "/domain?domain="@ + host@,
{
    let mut out = base.to_owned();
    out.append("/domain?domain=");
    out.append(host);
    out
}

/// The verdict the data API's answer amounts to: a `404` means the host is
/// not catalogued, and otherwise the answer's flag decides.
pub open spec fn spec_api_verdict(not_found: bool, is_scam: bool) -> IsScam {
    if not_found {
        IsScam::Unknown
    } else if is_scam {
        IsScam::Yes
    } else {
        IsScam::No
    }
}

/// Interprets the data API's answer.
pub fn api_verdict(not_found: bool, is_scam: bool) -> (r: IsScam)
    ensures
        r == spec_api_verdict(not_found, is_scam),
{
    if not_found {
        IsScam::Unknown
    } else if is_scam {
        IsScam::Yes
    } else {
        IsScam::No
    }
}

impl<S: ScamGuard> Cached<S, TtlKv<IsScam>> {
    /// The cache-aside read of a verdict at time `now`: a live cached
    /// verdict is served without consulting the guard; otherwise the guard
    /// answers, its failure is the failure of the read, and a fresh
    /// verdict is written back under the fixed expiry.
    pub fn is_scam(&mut self, domain: &str, now: u64) -> (r: Result<IsScam, String>)
        requires
            now + TTL_SECS <= u64::MAX,
        ensures
            live_value(old(self).cache@, domain@, now) matches Some(v) ==> (r == Ok::<
                IsScam,
                String,
            >(v) && final(self).cache@ == old(self).cache@),
            r matches Ok(v) ==> (live_value(old(self).cache@, domain@, now) is None
                ==> final(self).cache@ == old(self).cache@.insert(
                domain@,
                (v, (now + TTL_SECS) as u64),
            )),
            live_value(old(self).cache@, domain@, now) is None && r is Err ==> final(self).cache@
                == old(self).cache@,
    {
        match cache_lookup(&self.cache, domain, now) {
            Output::Hit(v) => Ok(*v),
            Output::Miss => {
                match self.inner.is_scam(domain) {
                    Ok(v) => {
                        write_back(&mut self.cache, domain, v, now);
                        Ok(v)
                    },
                    Err(e) => Err(e),
                }
            },
        }
    }
}

} // verus!
