//! Core logic of a portfolio web client backed by a hosted REST data
//! service and its identity provider.
//!
//! The crate covers the parts of the client that decide and compute:
//! the route guard that gates navigation to protected destinations and
//! remembers the originally requested target, the query descriptions
//! sent to the data service, the parsing of returned records into
//! entities, and the interpretation of authentication responses.
//! Network transport, browser bindings and JSON (de)serialization live
//! outside the crate and exchange plain values with it.

pub mod routes;

pub mod guard;

pub mod text;

pub mod records;

pub mod errors;

pub mod blog;

pub mod env;

pub mod query;

pub mod projects;

pub mod auth;

pub mod contact;

pub mod fragment;
