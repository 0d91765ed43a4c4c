//! The analytics event sink capability: events of handled commands are
//! reported here, and a missing or failing sink never affects the command
//! itself. The export pipeline behind the sink lives outside the library.

use vstd::prelude::*;

verus! {

/// Capability to report an event. Sending never fails the caller.
pub trait EventSink<Ev> {
    fn send(&self, ev: Ev);
}

/// The kind of analytics data a batch belongs to.
#[derive(Clone, Copy, Debug, PartialEq, Eq, Structural)]
pub enum DataKind {
    Requests,
}

impl DataKind {
    /// The kind's name, as it appears in export paths and telemetry tags.
    pub fn as_str(&self) -> (r: &'static str)
        ensures
            r@ == "requests"@,
    {
        match self {
            DataKind::Requests => "requests",
        }
    }
}

} // verus!
