use bouncer::attestation_store::MemoryStore;
use bouncer::config::{
    default_is_test, default_log_level, default_port, default_prometheus_port, Configuration,
    LogLevel,
};
use bouncer::event_sink::DataKind;
use bouncer::project_registry::ProjectRegistry;
use bouncer::scam_guard::ScamGuard;
use bouncer::{
    build_attestation, handle_get_verify_status, verify_status_of, Deps, Domain,
    GetVerifyStatusError, IsScam, ProjectData, ProjectId, Service, VerifyStatus,
};

struct NoRegistry;

impl ProjectRegistry for NoRegistry {
    fn project_data(&self, _id: &ProjectId) -> Result<Option<ProjectData>, String> {
        Ok(None)
    }
}

struct NoGuard;

impl ScamGuard for NoGuard {
    fn is_scam(&self, _domain: &str) -> Result<IsScam, String> {
        Ok(IsScam::Unknown)
    }
}

#[test]
fn verify_status_enabled_needs_flag_and_domains() {
    let enabled = verify_status_of(ProjectData {
        is_verify_enabled: true,
        verified_domains: vec![Domain("example.com".to_string())],
    });
    match enabled {
        VerifyStatus::Enabled { verified_domains } => {
            assert_eq!(verified_domains.len(), 1);
            assert_eq!(verified_domains[0].0, "example.com");
        }
        VerifyStatus::Disabled => panic!("expected Enabled"),
    }

    // The flag alone is not enough: no verified domains means disabled.
    let no_domains = verify_status_of(ProjectData {
        is_verify_enabled: true,
        verified_domains: Vec::new(),
    });
    assert!(matches!(no_domains, VerifyStatus::Disabled));

    let flag_off = verify_status_of(ProjectData {
        is_verify_enabled: false,
        verified_domains: vec![Domain("example.com".to_string())],
    });
    assert!(matches!(flag_off, VerifyStatus::Disabled));
}

#[test]
fn get_verify_status_error_taxonomy() {
    assert!(matches!(
        handle_get_verify_status(Ok(None)),
        Err(GetVerifyStatusError::UnknownProject)
    ));
    assert!(matches!(
        handle_get_verify_status(Err("timed out".to_string())),
        Err(GetVerifyStatusError::Other(msg)) if msg == "timed out"
    ));
    let ok = handle_get_verify_status(Ok(Some(ProjectData {
        is_verify_enabled: true,
        verified_domains: vec![Domain("a.example".to_string())],
    })));
    assert!(matches!(ok, Ok(VerifyStatus::Enabled { .. })));
}

#[test]
fn attestation_assembly() {
    let a = build_attestation("https://example.com".to_string(), IsScam::No);
    assert_eq!(a.origin, "https://example.com");
    assert_eq!(a.is_scam, IsScam::No);
}

#[test]
fn service_exposes_its_dependencies() {
    let mut store = MemoryStore::new();
    store.set("id1", "https://o.example", 0).unwrap();
    let service = Service::new(Deps {
        attestation_store: store,
        project_registry: NoRegistry,
        scam_guard: NoGuard,
    });
    assert_eq!(
        service.attestation_store().get("id1", 10).unwrap(),
        Some("https://o.example".to_string())
    );
    assert!(service.project_registry().project_data(
        &ProjectId::parse("0123456789abcdef0123456789abcdef").unwrap()
    ).unwrap().is_none());
    assert_eq!(service.scam_guard().is_scam("x.example").unwrap(), IsScam::Unknown);
    let observable = service.observable::<()>(None);
    assert!(observable.event_sink.is_none());
}

#[test]
fn configuration_log_level() {
    let config = Configuration {
        port: default_port(),
        log_level: default_log_level(),
        is_test: default_is_test(),
        telemetry_enabled: None,
        telemetry_grpc_url: None,
        attestation_cache_url: "redis://localhost/0".to_string(),
        project_registry_cache_url: "redis://localhost/1".to_string(),
        project_registry_url: "https://registry.example".to_string(),
        project_registry_auth_token: "token".to_string(),
    };
    assert_eq!(config.port, 3008);
    assert_eq!(default_prometheus_port(), 4000);
    assert!(!config.is_test);
    assert_eq!(config.log_level(), LogLevel::Warn);
    assert_eq!(config.checked_log_level(), Some(LogLevel::Warn));

    // The level name is read in any ASCII case, as the original parser did.
    let mut other = config;
    other.log_level = "warn".to_string();
    assert_eq!(other.log_level(), LogLevel::Warn);
    other.log_level = "Debug".to_string();
    assert_eq!(other.checked_log_level(), Some(LogLevel::Debug));
    // The numeric forms count down in severity: 1 is Error, 5 is Trace.
    other.log_level = "3".to_string();
    assert_eq!(other.checked_log_level(), Some(LogLevel::Info));
    other.log_level = "5".to_string();
    assert_eq!(other.checked_log_level(), Some(LogLevel::Trace));
    other.log_level = "CHATTY".to_string();
    assert_eq!(other.checked_log_level(), None);
    other.log_level = "6".to_string();
    assert_eq!(other.checked_log_level(), None);
}

#[test]
fn attestation_read_skips_the_guard_when_absent() {
    assert!(matches!(
        bouncer::attestation_read_step(None),
        bouncer::AttestationReadStep::Absent
    ));
    assert!(matches!(
        bouncer::attestation_read_step(Some("https://o.example".to_string())),
        bouncer::AttestationReadStep::Consult(origin) if origin == "https://o.example"
    ));
}

#[test]
fn data_kind_names() {
    assert_eq!(DataKind::Requests.as_str(), "requests");
}
