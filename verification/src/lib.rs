//! Domain-verification service core: a cache-aside decorator over a slow
//! source of truth, a dual-backend migration store for live cutover, and the
//! stateless signed-token protocol that gates attestation writes.

pub mod attestation_store;
pub mod cache;
pub mod config;
pub mod event_sink;
pub mod http_server;
pub mod kv;
pub mod migration;
pub mod project_registry;
pub mod scam_guard;
pub mod text;
pub mod token;

use crate::attestation_store::AttestationStore;
use crate::project_registry::ProjectRegistry;
use crate::scam_guard::ScamGuard;
use vstd::prelude::*;

verus! {

/// A verified domain of a project.
pub struct Domain(pub String);

impl DeepView for Domain {
    type V = Seq<char>;

    open spec fn deep_view(&self) -> Seq<char> {
        self.0@
    }
}

impl Clone for Domain {
    fn clone(&self) -> (r: Self)
        ensures
            r == *self,
    {
        Domain(self.0.clone())
    }
}

/// Whether `c` is an ASCII hexadecimal digit.
pub open spec fn is_hex_digit(c: char) -> bool {
    let u = c as int;
    (48 <= u <= 57)  // '0'..='9'
    || (65 <= u <= 70)  // 'A'..='F'
    || (97 <= u <= 102)  // 'a'..='f'
}

/// The shape of a project id: a hex string exactly 32 characters long.
pub open spec fn spec_valid_project_id(s: Seq<char>) -> bool {
    s.len() == 32 && forall|i: int| 0 <= i < s.len() ==> is_hex_digit(s[i])
}

/// Identifier of a project: a hex string exactly 32 characters long.
pub struct ProjectId {
    id: String,
}

impl View for ProjectId {
    type V = Seq<char>;

    closed spec fn view(&self) -> Seq<char> {
        self.id@
    }
}

impl ProjectId {
    /// Accepts exactly the well-formed project ids.
    pub fn parse(s: &str) -> (r: Option<ProjectId>)
        ensures
            r matches Some(p) ==> p@ == s@ && spec_valid_project_id(s@),
            r is None ==> !spec_valid_project_id(s@),
    {
        let len = s.unicode_len();
        if len != 32 {
            return None;
        }
        let mut i: usize = 0;
        while i < len
            invariant
                i <= len,
                len == s@.len(),
                forall|j: int| 0 <= j < i ==> is_hex_digit(s@[j]),
            decreases len - i,
        {
            let u = s.get_char(i) as u32;
            let ok = (48 <= u && u <= 57) || (65 <= u && u <= 70) || (97 <= u && u <= 102);
            if !ok {
                assert(!is_hex_digit(s@[i as int]));
                return None;
            }
            i += 1;
        }
        Some(ProjectId { id: s.to_owned() })
    }

    /// The id as text.
    pub fn as_str(&self) -> (r: &str)
        ensures
            r@ == self@,
    {
        self.id.as_str()
    }
}

impl Clone for ProjectId {
    fn clone(&self) -> (r: Self)
        ensures
            r == *self,
    {
        ProjectId { id: self.id.clone() }
    }
}

/// What the registry knows of a project: whether its Verify API is on, and
/// its verified domains in order.
pub struct ProjectData {
    pub is_verify_enabled: bool,
    pub verified_domains: Vec<Domain>,
}

/// The abstract value of a [`ProjectData`].
pub struct ProjectDataView {
    pub is_verify_enabled: bool,
    pub verified_domains: Seq<Seq<char>>,
}

impl DeepView for ProjectData {
    type V = ProjectDataView;

    open spec fn deep_view(&self) -> ProjectDataView {
        ProjectDataView {
            is_verify_enabled: self.is_verify_enabled,
            verified_domains: self.verified_domains.deep_view(),
        }
    }
}

impl Clone for ProjectData {
    fn clone(&self) -> (r: Self)
        ensures
            r.deep_view() == self.deep_view(),
    {
        let mut verified_domains: Vec<Domain> = Vec::new();
        let mut i: usize = 0;
        while i < self.verified_domains.len()
            invariant
                i <= self.verified_domains.len(),
                verified_domains@.len() == i,
                forall|j: int| 0 <= j < i ==> verified_domains@[j] == self.verified_domains@[j],
            decreases self.verified_domains.len() - i,
        {
            verified_domains.push(self.verified_domains[i].clone());
            i += 1;
        }
        proof {
            assert(verified_domains.deep_view() =~= self.verified_domains.deep_view());
        }
        ProjectData { is_verify_enabled: self.is_verify_enabled, verified_domains }
    }
}

/// Duplicates an optional project record, preserving its abstract value.
pub fn clone_project_data_opt(v: &Option<ProjectData>) -> (r: Option<ProjectData>)
    ensures
        r.deep_view() == v.deep_view(),
{
    match v {
        Some(d) => Some(d.clone()),
        None => None,
    }
}

/// Status of the Verify API of some project.
pub enum VerifyStatus {
    /// Verify API is disabled.
    Disabled,
    /// Verify API is enabled.
    Enabled {
        /// List of the verified domains of the project.
        verified_domains: Vec<Domain>,
    },
}

/// Error of getting a [`VerifyStatus`].
pub enum GetVerifyStatusError {
    /// The registry knows no project under the id.
    UnknownProject,
    /// The registry fetch failed or timed out; its context message.
    Other(String),
}

/// The status a project's data amounts to: enabled exactly when the
/// project has the Verify API switched on and at least one verified
/// domain.
pub open spec fn spec_verify_status(data: ProjectData) -> VerifyStatus {
    if data.is_verify_enabled && data.verified_domains@.len() > 0 {
        VerifyStatus::Enabled { verified_domains: data.verified_domains }
    } else {
        VerifyStatus::Disabled
    }
}

/// Computes the verify status of a project from its registry record.
pub fn verify_status_of(data: ProjectData) -> (r: VerifyStatus)
    ensures
        r == spec_verify_status(data),
{
    if data.is_verify_enabled && data.verified_domains.len() > 0 {
        VerifyStatus::Enabled { verified_domains: data.verified_domains }
    } else {
        VerifyStatus::Disabled
    }
}

/// What a verify-status command answers, given what the registry fetch
/// produced: a registry failure is surfaced, an unknown project is its own
/// error, and a record is folded into its status.
pub open spec fn spec_handle_get_verify_status(fetched: Result<Option<ProjectData>, String>)
    -> Result<VerifyStatus, GetVerifyStatusError> {
    match fetched {
        Ok(Some(data)) => Ok(spec_verify_status(data)),
        Ok(None) => Err(GetVerifyStatusError::UnknownProject),
        Err(e) => Err(GetVerifyStatusError::Other(e)),
    }
}

/// Settles a verify-status command from the registry fetch's outcome.
pub fn handle_get_verify_status(fetched: Result<Option<ProjectData>, String>) -> (r: Result<
    VerifyStatus,
    GetVerifyStatusError,
>)
    ensures
        r == spec_handle_get_verify_status(fetched),
{
    match fetched {
        Ok(Some(data)) => Ok(verify_status_of(data)),
        Ok(None) => Err(GetVerifyStatusError::UnknownProject),
        Err(e) => Err(GetVerifyStatusError::Other(e)),
    }
}

/// Command to get the [`VerifyStatus`] of a project.
pub struct GetVerifyStatus {
    pub project_id: ProjectId,
}

/// Command to record which origin loaded the widget under an attestation
/// id.
pub struct SetAttestation {
    pub id: String,
    pub origin: String,
}

/// Command to look an attestation up.
pub struct GetAttestation {
    pub id: String,
}

/// An attestation as served to the embedding application.
pub struct Attestation {
    /// The origin domain of this attestation.
    pub origin: String,
    /// Indicator of whether the [`Attestation::origin`] domain represents
    /// a scam dApp or not.
    pub is_scam: IsScam,
}

/// Indicator of whether a domain represents a scam dApp or not.
#[derive(Clone, Copy, Debug, PartialEq, Eq, Structural)]
pub enum IsScam {
    Yes,
    No,
    Unknown,
}

impl DeepView for IsScam {
    type V = IsScam;

    open spec fn deep_view(&self) -> IsScam {
        *self
    }
}

/// The verdict an attestation carries, given what the scam guard answered:
/// its answer if it answered in time, and `Unknown` on a timeout (`None`)
/// or an error — a scam-guard outage never fails the read.
pub open spec fn spec_scam_verdict<E>(outcome: Option<Result<IsScam, E>>) -> IsScam {
    match outcome {
        Some(Ok(v)) => v,
        _ => IsScam::Unknown,
    }
}

/// Settles the scam-guard consultation of an attestation read.
pub fn scam_verdict<E>(outcome: Option<Result<IsScam, E>>) -> (r: IsScam)
    ensures
        r == spec_scam_verdict(outcome),
{
    match outcome {
        Some(Ok(v)) => v,
        _ => IsScam::Unknown,
    }
}

/// What an attestation read does once the store has answered.
pub enum AttestationReadStep {
    /// No record: the read finishes with "no attestation"; the scam guard
    /// is not consulted.
    Absent,
    /// A recorded origin: the scam guard is consulted about it before the
    /// attestation is served.
    Consult(String),
}

/// The continuation of an attestation read, given the stored origin.
pub open spec fn spec_attestation_read_step(origin: Option<String>) -> AttestationReadStep {
    match origin {
        Some(o) => AttestationReadStep::Consult(o),
        None => AttestationReadStep::Absent,
    }
}

/// Decides how an attestation read continues once the store has answered.
pub fn attestation_read_step(origin: Option<String>) -> (r: AttestationReadStep)
    ensures
        r == spec_attestation_read_step(origin),
{
    match origin {
        Some(o) => AttestationReadStep::Consult(o),
        None => AttestationReadStep::Absent,
    }
}

/// Assembles the attestation served for a stored origin.
pub fn build_attestation(origin: String, is_scam: IsScam) -> (r: Attestation)
    ensures
        r.origin == origin,
        r.is_scam == is_scam,
{
    Attestation { origin, is_scam }
}

/// Capability to handle a command.
pub trait Handle<Cmd> {
    type Result;

    fn handle(&mut self, cmd: Cmd) -> Self::Result;
}

/// Infrastructure dependencies of this service.
pub trait Infra {
    type AttestationStore: AttestationStore;

    type ProjectRegistry: ProjectRegistry;

    type ScamGuard: ScamGuard;

    fn attestation_store(&self) -> &Self::AttestationStore;

    fn project_registry(&self) -> &Self::ProjectRegistry;

    fn scam_guard(&self) -> &Self::ScamGuard;
}

/// A bundle of infrastructure dependencies, one field per capability.
pub struct Deps<A, P, S> {
    pub attestation_store: A,
    pub project_registry: P,
    pub scam_guard: S,
}

impl<A: AttestationStore, P: ProjectRegistry, S: ScamGuard> Infra for Deps<A, P, S> {
    type AttestationStore = A;

    type ProjectRegistry = P;

    type ScamGuard = S;

    fn attestation_store(&self) -> &A {
        &self.attestation_store
    }

    fn project_registry(&self) -> &P {
        &self.project_registry
    }

    fn scam_guard(&self) -> &S {
        &self.scam_guard
    }
}

/// The service: its infrastructure dependencies behind one value.
pub struct Service<I> {
    infra: I,
}

impl<I> Service<I> {
    /// The infrastructure this service runs on.
    pub closed spec fn spec_infra(&self) -> I {
        self.infra
    }

    /// A service over the given infrastructure.
    pub fn new(infra: I) -> (r: Service<I>)
        ensures
            r.spec_infra() == infra,
    {
        Service { infra }
    }

    /// Wraps the service so that every handled command is also reported to
    /// an event sink, when one is configured.
    pub fn observable<E>(self, event_sink: Option<E>) -> (r: Observable<Service<I>, E>)
        ensures
            r.service == self,
            r.event_sink == event_sink,
    {
        Observable { service: self, event_sink }
    }
}

impl<I: Infra> Service<I> {
    pub fn attestation_store(&self) -> &I::AttestationStore {
        self.infra.attestation_store()
    }

    pub fn project_registry(&self) -> &I::ProjectRegistry {
        self.infra.project_registry()
    }

    pub fn scam_guard(&self) -> &I::ScamGuard {
        self.infra.scam_guard()
    }
}

/// Command with an execution context attached to it.
pub struct ContextualCommand<Cmd, Ctx> {
    pub inner: Cmd,
    pub context: Ctx,
}

/// Event of a command being handled.
pub struct CommandHandled<Cmd, Ctx, Res> {
    pub cmd: ContextualCommand<Cmd, Ctx>,
    pub result: Res,
}

/// Observable service emitting [`CommandHandled`] events to an event sink.
pub struct Observable<S, E> {
    pub service: S,
    pub event_sink: Option<E>,
}

} // verus!
