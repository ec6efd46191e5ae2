//! Identifiers of the webhook events that an endpoint can subscribe to.

use vstd::prelude::*;

verus! {

/// A subscription changed (created, renewed, paused, resumed, cancelled, ...).
pub const SUBSCRIPTION_UPDATED_V2: &'static str = "subscription.updated.v2";

} // verus!
