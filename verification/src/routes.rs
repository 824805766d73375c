//! What the service decides when a request comes in.

pub mod subscriptions;
