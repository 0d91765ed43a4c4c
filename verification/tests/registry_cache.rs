use bouncer::cache::{Cached, CachedExt};
use bouncer::kv::TtlKv;
use bouncer::project_registry::ProjectRegistry;
use bouncer::{clone_project_data_opt, Domain, ProjectData, ProjectId};
use std::cell::Cell;

struct CountingRegistry {
    answer: Option<ProjectData>,
    calls: Cell<u32>,
}

impl CountingRegistry {
    fn new(answer: Option<ProjectData>) -> Self {
        CountingRegistry { answer, calls: Cell::new(0) }
    }
}

impl ProjectRegistry for CountingRegistry {
    fn project_data(&self, _id: &ProjectId) -> Result<Option<ProjectData>, String> {
        self.calls.set(self.calls.get() + 1);
        Ok(clone_project_data_opt(&self.answer))
    }
}

struct FailingRegistry;

impl ProjectRegistry for FailingRegistry {
    fn project_data(&self, _id: &ProjectId) -> Result<Option<ProjectData>, String> {
        Err("registry unreachable".to_string())
    }
}

fn some_id() -> ProjectId {
    ProjectId::parse("0123456789abcdef0123456789abcdef").unwrap()
}

#[test]
fn cached_negative_suppresses_refetch_within_ttl() {
    let registry = CountingRegistry::new(None);
    let mut cached = registry.cached(TtlKv::<Option<ProjectData>>::new());
    let id = some_id();

    let t: u64 = 10_000;
    assert!(matches!(cached.project_data(&id, t), Ok(None)));
    assert_eq!(cached.inner.calls.get(), 1);

    // Within the TTL the cached negative answers; the source is not asked.
    assert!(matches!(cached.project_data(&id, t + 100), Ok(None)));
    assert!(matches!(cached.project_data(&id, t + 299), Ok(None)));
    assert_eq!(cached.inner.calls.get(), 1);

    // Once the entry expires the next read fetches again.
    assert!(matches!(cached.project_data(&id, t + 300), Ok(None)));
    assert_eq!(cached.inner.calls.get(), 2);
}

#[test]
fn cached_positive_is_served_from_cache() {
    let data = ProjectData {
        is_verify_enabled: true,
        verified_domains: vec![Domain("example.com".to_string())],
    };
    let registry = CountingRegistry::new(Some(data));
    let mut cached = Cached { inner: registry, cache: TtlKv::new() };
    let id = some_id();

    let first = cached.project_data(&id, 0).unwrap().unwrap();
    assert!(first.is_verify_enabled);
    assert_eq!(first.verified_domains.len(), 1);
    assert_eq!(first.verified_domains[0].0, "example.com");
    assert_eq!(cached.inner.calls.get(), 1);

    let second = cached.project_data(&id, 200).unwrap().unwrap();
    assert_eq!(second.verified_domains[0].0, "example.com");
    assert_eq!(cached.inner.calls.get(), 1);
}

#[test]
fn registry_failure_is_surfaced_and_not_cached() {
    let mut cached = FailingRegistry.cached(TtlKv::<Option<ProjectData>>::new());
    let id = some_id();
    assert!(cached.project_data(&id, 0).is_err());
    assert!(cached.project_data(&id, 1).is_err());
}

#[test]
fn project_id_accepts_exactly_32_hex_chars() {
    assert!(ProjectId::parse("0123456789abcdef0123456789abcdef").is_some());
    assert!(ProjectId::parse("0123456789ABCDEF0123456789ABCDEF").is_some());
    assert!(ProjectId::parse("0123456789abcdef0123456789abcde").is_none());
    assert!(ProjectId::parse("0123456789abcdef0123456789abcdef0").is_none());
    assert!(ProjectId::parse("0123456789abcdef0123456789abcdeg").is_none());
    assert!(ProjectId::parse("").is_none());
    let id = ProjectId::parse("aaaaaaaaaaaaaaaaaaaaaaaaaaaaaaaa").unwrap();
    assert_eq!(id.as_str(), "aaaaaaaaaaaaaaaaaaaaaaaaaaaaaaaa");
}
