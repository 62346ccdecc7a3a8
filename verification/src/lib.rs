//! Core of a concert-tracking service: validated domain values (artist
//! names, concert venues, cities, states, countries and dates), command
//! objects built from raw request payloads, and transactional insert,
//! update and find operations against a relational store model.

pub mod domain;
pub mod routes;
mod ids;
pub mod laws;
pub mod store;
pub mod text;
