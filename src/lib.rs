//! A small ticket service whose failures all pass through one place: internal
//! errors are classified into a stable client-facing taxonomy, the response is
//! rewritten to carry only the client error kind and a correlation id, and one
//! structured log record is produced per request.

pub mod auth;
pub mod correlation;
pub mod ctx;
pub mod error;
pub mod log;
pub mod mapper;
pub mod model;
pub mod response;
pub mod web;
