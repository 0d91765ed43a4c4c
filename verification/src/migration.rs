//! Dual-backend attestation storage for a live cutover: every write goes to
//! both backends, every read prefers the primary, and only the authoritative
//! side may surface an error to the caller.

use crate::attestation_store::{AttestationStore, StoreError};
use vstd::prelude::*;

verus! {

/// How a write that reached only the primary backend is judged.
///
/// Only one policy is active per deployment; switching between them is a
/// configuration change, never a per-call decision.
#[derive(Clone, Copy, Debug, PartialEq, Eq, Structural)]
pub enum WritePolicy {
    /// The primary is authoritative: a secondary failure is logged and
    /// swallowed, a primary failure fails the call.
    BestEffort,
    /// Both backends are co-authoritative: the call fails if either write
    /// fails, the primary's error first.
    Strict,
}

/// Attestation store that writes to two independent backends and reads the
/// primary first, falling back to the secondary.
pub struct MigrationStore<A, B> {
    pub primary: A,
    pub secondary: B,
    pub policy: WritePolicy,
}

impl<A, B> MigrationStore<A, B> {
    /// A migration store in its usual configuration: the primary is
    /// authoritative and writes to the secondary are best effort.
    pub fn new(primary: A, secondary: B) -> (r: Self)
        ensures
            r.primary == primary,
            r.secondary == secondary,
            r.policy == WritePolicy::BestEffort,
    {
        MigrationStore { primary, secondary, policy: WritePolicy::BestEffort }
    }

    /// A migration store under an explicitly chosen write policy.
    pub fn with_policy(primary: A, secondary: B, policy: WritePolicy) -> (r: Self)
        ensures
            r.primary == primary,
            r.secondary == secondary,
            r.policy == policy,
    {
        MigrationStore { primary, secondary, policy }
    }
}

impl<A: AttestationStore, B: AttestationStore> AttestationStore for MigrationStore<A, B> {
    fn set_attestation(&mut self, id: &str, origin: &str, now: u64) -> Result<(), StoreError> {
        let primary_res = self.primary.set_attestation(id, origin, now);
        let secondary_res = self.secondary.set_attestation(id, origin, now);
        combine_set_results(self.policy, primary_res, secondary_res)
    }

    fn get_attestation(&self, id: &str, now: u64) -> Result<Option<String>, StoreError> {
        match after_primary_get(self.primary.get_attestation(id, now)) {
            Ok(GetStep::Done(v)) => Ok(v),
            Ok(GetStep::TrySecondary) => Ok(
                after_secondary_get(self.secondary.get_attestation(id, now)),
            ),
            Err(e) => Err(e),
        }
    }
}

/// The result a dual write reports, given what each backend answered.
pub open spec fn combined_set_result<E>(
    policy: WritePolicy,
    primary: Result<(), E>,
    secondary: Result<(), E>,
) -> Result<(), E> {
    match policy {
        WritePolicy::BestEffort => primary,
        WritePolicy::Strict => if primary is Err {
            primary
        } else {
            secondary
        },
    }
}

/// Judges a dual write. Under best effort the secondary's answer is
/// discarded; under the strict policy both must have succeeded.
pub fn combine_set_results<E>(
    policy: WritePolicy,
    primary: Result<(), E>,
    secondary: Result<(), E>,
) -> (r: Result<(), E>)
    ensures
        r == combined_set_result(policy, primary, secondary),
        r is Ok <==> primary is Ok && (policy == WritePolicy::BestEffort || secondary is Ok),
{
    match policy {
        WritePolicy::BestEffort => primary,
        WritePolicy::Strict => {
            if primary.is_err() {
                primary
            } else {
                secondary
            }
        },
    }
}

/// What a read does after the primary backend has answered.
pub enum GetStep<V> {
    /// The read is finished with this value; the secondary is not consulted.
    Done(Option<V>),
    /// The primary had no entry; ask the secondary.
    TrySecondary,
}

/// The continuation of a read, given the primary's answer: a primary hit is
/// final, a primary miss defers to the secondary, and a primary error is
/// surfaced as the error of the whole read.
pub open spec fn primary_get_step<V, E>(primary: Result<Option<V>, E>) -> Result<GetStep<V>, E> {
    match primary {
        Ok(Some(v)) => Ok(GetStep::Done(Some(v))),
        Ok(None) => Ok(GetStep::TrySecondary),
        Err(e) => Err(e),
    }
}

/// Decides how a read continues once the primary backend has answered.
pub fn after_primary_get<V, E>(primary: Result<Option<V>, E>) -> (r: Result<GetStep<V>, E>)
    ensures
        r == primary_get_step(primary),
{
    match primary {
        Ok(Some(v)) => Ok(GetStep::Done(Some(v))),
        Ok(None) => Ok(GetStep::TrySecondary),
        Err(e) => Err(e),
    }
}

/// What the fallback read reports: a secondary error is never surfaced to
/// the caller of `get`, it degrades to "absent".
pub open spec fn secondary_get_result<V, E>(secondary: Result<Option<V>, E>) -> Option<V> {
    match secondary {
        Ok(v) => v,
        Err(_) => None,
    }
}

/// Settles the fallback read of the secondary backend.
pub fn after_secondary_get<V, E>(secondary: Result<Option<V>, E>) -> (r: Option<V>)
    ensures
        r == secondary_get_result(secondary),
{
    match secondary {
        Ok(v) => v,
        Err(_) => None,
    }
}

/// Read priority: when the primary holds a value, the read returns exactly
/// that value and never proceeds to the secondary, whatever the secondary
/// would have answered.
pub proof fn read_prefers_primary<V, E>(primary_value: V)
    ensures
        primary_get_step::<V, E>(Ok(Some(primary_value)))
            == Ok::<GetStep<V>, E>(GetStep::Done(Some(primary_value))),
        !(primary_get_step::<V, E>(Ok(Some(primary_value))) matches Ok(s) && s is TrySecondary),
{
}

/// Best-effort write tolerance: when the primary succeeds and the secondary
/// fails, the write succeeds under the best-effort policy and fails, with
/// the secondary's error, under the strict policy.
pub proof fn best_effort_masks_secondary_failure<E>(secondary_error: E)
    ensures
        combined_set_result::<E>(WritePolicy::BestEffort, Ok(()), Err(secondary_error))
            == Ok::<(), E>(()),
        combined_set_result::<E>(WritePolicy::Strict, Ok(()), Err(secondary_error))
            == Err::<(), E>(secondary_error),
{
}

/// A primary failure fails the write under either policy.
pub proof fn primary_failure_always_surfaces<E>(primary_error: E, secondary: Result<(), E>)
    ensures
        combined_set_result(WritePolicy::BestEffort, Err(primary_error), secondary)
            == Err::<(), E>(primary_error),
        combined_set_result(WritePolicy::Strict, Err(primary_error), secondary)
            == Err::<(), E>(primary_error),
{
}

} // verus!
