//! A thin adapter that lets code running in an edge worker report errors and
//! diagnostic events to an external JavaScript error-tracking client.
//!
//! The library models the adapter's own work: building the initialization
//! options for the client from a [`client::SentryConfig`], and mapping each
//! typed method call one-to-one onto a command for the external client. The
//! surrounding application performs the commands on the JavaScript object.

pub mod client;
pub mod error;
