//! Measures a vehicle's charging energy, distance travelled and whereabouts from its
//! telemetry API, without waking a vehicle that sleeps.
//!
//! The library holds the decisions of a measurement cycle, each verified: how the vehicle's
//! state is classified, how a streaming update is decoded, which geofence a position falls
//! in, how counters are carried over from the previous measurement, and how failed calls are
//! retried. The network calls themselves are made by the program around it.

pub mod idle_client;
pub mod laws;
pub mod measurement;
pub mod model;
pub mod number;
pub mod retry_policy;
pub mod streaming;
pub mod tesla_api_client;
pub mod text;
