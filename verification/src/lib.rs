//! Verified core of a newsletter subscription service: subscriber-name
//! validation, database connection strings, response decisions of the
//! subscription endpoint, request-completion logging decisions and the
//! span timing table behind the timing log.

pub mod config;
pub mod domain;
pub mod routes;
pub mod services;
pub mod text;
pub mod tracing;
