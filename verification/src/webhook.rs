//! Generic webhook payloads and SolidGate's event identifiers.

pub mod event_types;

use vstd::prelude::*;

verus! {

/// A webhook delivery reduced to its type and action.
#[derive(Debug)]
pub struct WebhookModel {
    /// On the wire: `type`.
    pub event_type: String,
    pub action: String,
}

} // verus!
