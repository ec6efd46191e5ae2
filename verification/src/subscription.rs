//! Subscription lifecycle webhooks.

pub mod webhook;
