//! Request and response types of the SolidGate API.

use vstd::prelude::*;
use crate::text::string_views;

verus! {

/// SolidGate authenticates requests with HMAC headers (`Merchant` + `Signature`);
/// there is no per-request envelope, the payload is sent as it is.
pub struct ApiRequest<T> {
    pub data: T,
}

/// A response whose fields are those of `data` (flattened).
#[derive(Debug)]
pub struct ApiResponse<T> {
    pub data: T,
}

/// Why a subscription is cancelled. On the wire: `8.14`, `8.11`, `8.10`, `8.09`,
/// `8.06`, `0.00`.
#[derive(Debug, Clone, Copy, PartialEq, Eq, Structural)]
pub enum CancelSubscriptionCode {
    /// Customer-initiated cancellation.
    CustomerRequest,
    TokenRevokedByCustomer,
    TokenHasExpired,
    FailedRedemption,
    SupportRequest,
    BackendRequest,
}

#[derive(Debug)]
pub struct CancelSubscriptionRequest {
    pub subscription_id: String,
    /// `false`: cancel at the end of the current billing period (the subscription stays
    /// active until then). `true`: immediate termination.
    pub force: bool,
    pub cancel_code: CancelSubscriptionCode,
}

#[derive(Debug)]
pub struct CancelSubscriptionResponse {
    pub status: Option<String>,
}

/// Whether a webhook endpoint receives events. On the wire: `active`, `inactive`.
#[derive(Debug, Clone, Copy, PartialEq, Eq, Structural)]
pub enum WebhookEndpointStatus {
    Active,
    Inactive,
}

/// Registers a webhook endpoint. `event_types` are SolidGate event identifiers
/// (such as [`crate::webhook::event_types::SUBSCRIPTION_UPDATED_V2`]).
#[derive(Debug)]
pub struct CreateWebhookEndpointRequest {
    pub url: String,
    pub event_types: Vec<String>,
    pub name: Option<String>,
    pub status: Option<WebhookEndpointStatus>,
}

/// Patches a webhook endpoint: only the fields that are present are changed.
#[derive(Debug, Default)]
pub struct UpdateWebhookEndpointRequest {
    pub url: Option<String>,
    pub event_types: Option<Vec<String>>,
    pub name: Option<String>,
    pub status: Option<WebhookEndpointStatus>,
}

#[derive(Debug, Clone)]
pub struct WebhookEndpoint {
    pub id: String,
    pub url: String,
    pub event_types: Vec<String>,
    pub name: Option<String>,
    pub status: WebhookEndpointStatus,
    /// SolidGate format: `YYYY-MM-DD HH:MM:SS`.
    pub created_at: Option<String>,
    pub updated_at: Option<String>,
}

#[derive(Debug)]
pub struct WebhookEndpointPagination {
    pub offset: i64,
    pub limit: i64,
    pub total_count: i64,
}

#[derive(Debug)]
pub struct ListWebhookEndpointsResponse {
    pub data: Vec<WebhookEndpoint>,
    pub pagination: Option<WebhookEndpointPagination>,
}

/// The error object that SolidGate may send in place of a result, with any status code.
#[derive(Debug, Clone)]
pub struct ApiError {
    pub code: String,
    pub messages: Vec<String>,
}

impl View for ApiError {
    /// The code and the messages.
    type V = (Seq<char>, Seq<Seq<char>>);

    open spec fn view(&self) -> (Seq<char>, Seq<Seq<char>>) {
        (self.code@, string_views(self.messages@))
    }
}

/// A response body read as a possible error: `{"error": {...}}`.
#[derive(Debug)]
pub struct ErrorEnvelope {
    pub error: Option<ApiError>,
}

} // verus!
