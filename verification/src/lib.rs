//! Client-side logic for the SolidGate payment API: request signing and
//! signature checks, request preparation, response classification and the
//! data model of the API and of its webhooks.

pub mod api;
pub mod model;
pub mod signature;
pub mod subscription;
pub mod text;
pub mod webhook;

pub use signature::{generate_signature, verify_signature};
