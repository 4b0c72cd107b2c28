//! Typed request/response dispatch over HTTP: a three-way response envelope,
//! a closed taxonomy of transport failures, per-request route contracts and
//! a collision-checked route table.

pub mod types;
pub mod classify;
pub mod request;
pub mod envelope;
pub mod routes;
