//! Application-level pub/sub events: emit requests, listen queries, and
//! the event listing.

use vstd::prelude::*;

use crate::BridgeError;

verus! {

/// Request to emit an application event.
#[derive(Debug)]
pub struct EmitRequest {
    /// The event name.
    pub event: String,
    /// JSON text of the event payload.
    pub payload: String,
}

/// Acknowledgement of an emit request.
#[derive(Debug)]
pub struct EmitResponse {
    /// Whether the event was handed to the host.
    pub success: bool,
}

/// One known event name.
#[derive(Debug)]
pub struct EventInfo {
    /// The event name.
    pub name: String,
}

/// Query selecting which event stream to listen to.
#[derive(Debug)]
pub struct ListenQuery {
    /// The event name to subscribe to.
    pub name: String,
}

/// The event listing. The host keeps no public registry of event names,
/// so the listing is not available.
pub fn list() -> (r: Result<Vec<EventInfo>, BridgeError>)
    ensures
        r matches Err(e) && e matches BridgeError::NotImplemented(d) && d@
            == "event listing not yet implemented - no public event registry"@,
{
    Err(
        BridgeError::NotImplemented(
            String::from_str("event listing not yet implemented - no public event registry"),
        ),
    )
}

} // verus!
