//! Intake of newsletter subscribers: validated names and addresses, the
//! payload sent to the e-mail provider, and the decisions around one dispatch.

pub mod configuration;
pub mod domain;
pub mod email_client;
pub mod routes;
pub mod secret;
pub mod text;
