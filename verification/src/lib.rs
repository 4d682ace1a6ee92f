//! Capability-gated, quota-enforced file storage: the decisions of a personal
//! file-hosting backend, stated over plain values and proved against their
//! contracts.

pub mod crypt;
pub mod db;
pub mod handlers;
pub mod jwt;
pub mod middleware;
pub mod models;
pub mod reserr;
pub mod routes;
pub mod utils;
