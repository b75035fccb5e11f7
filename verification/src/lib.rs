//! Verified core of the M321 climate dashboard: the decisions of its
//! Keycloak sign-in and sign-out flows, the routing of protected pages,
//! the endpoints it talks to, and the acceptance of sensor readings.
pub mod text;
pub mod user_id;
pub mod endpoints;
pub mod auth;
pub mod telemetry;
pub mod models;
