use bouncer::cache::CachedExt;
use bouncer::kv::TtlKv;
use bouncer::scam_guard::{api_verdict, data_api_query_url, scam_check_target, ScamGuard};
use bouncer::{scam_verdict, IsScam};
use std::cell::Cell;

struct CountingGuard {
    answer: IsScam,
    calls: Cell<u32>,
}

impl ScamGuard for CountingGuard {
    fn is_scam(&self, _domain: &str) -> Result<IsScam, String> {
        self.calls.set(self.calls.get() + 1);
        Ok(self.answer)
    }
}

#[test]
fn scam_verdict_is_cached_within_ttl() {
    let guard = CountingGuard { answer: IsScam::Yes, calls: Cell::new(0) };
    let mut cached = guard.cached(TtlKv::<IsScam>::new());

    assert_eq!(cached.is_scam("bad.example", 0).unwrap(), IsScam::Yes);
    assert_eq!(cached.inner.calls.get(), 1);
    assert_eq!(cached.is_scam("bad.example", 299).unwrap(), IsScam::Yes);
    assert_eq!(cached.inner.calls.get(), 1);
    assert_eq!(cached.is_scam("bad.example", 300).unwrap(), IsScam::Yes);
    assert_eq!(cached.inner.calls.get(), 2);
}

#[test]
fn scam_check_target_extracts_the_host() {
    assert_eq!(
        scam_check_target("https://example.com/widget?x=1"),
        Some("example.com".to_string())
    );
    assert_eq!(
        scam_check_target("https://sub.domain.example:8443/"),
        Some("sub.domain.example".to_string())
    );
    // No URL, or no host: the check is skipped.
    assert_eq!(scam_check_target("not a url"), None);
    assert_eq!(scam_check_target("mailto:user@example.com"), None);
}

#[test]
fn data_api_query_url_is_exact() {
    assert_eq!(
        data_api_query_url("https://api.example", "evil.example"),
        "https://api.example/domain?domain=evil.example"
    );
}

#[test]
fn api_verdict_mapping() {
    assert_eq!(api_verdict(true, false), IsScam::Unknown);
    assert_eq!(api_verdict(true, true), IsScam::Unknown);
    assert_eq!(api_verdict(false, true), IsScam::Yes);
    assert_eq!(api_verdict(false, false), IsScam::No);
}

#[test]
fn scam_verdict_swallows_guard_failures() {
    assert_eq!(scam_verdict::<String>(Some(Ok(IsScam::No))), IsScam::No);
    assert_eq!(scam_verdict::<String>(Some(Ok(IsScam::Yes))), IsScam::Yes);
    assert_eq!(
        scam_verdict::<String>(Some(Err("api down".to_string()))),
        IsScam::Unknown
    );
    // A timed-out consultation carries no answer at all.
    assert_eq!(scam_verdict::<String>(None), IsScam::Unknown);
}
