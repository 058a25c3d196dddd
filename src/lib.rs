//! A minimal transaction ledger: accounts and money-movement records served
//! over HTTP/JSON from a relational store.
//!
//! This crate holds the decisions of the service: the entity model, the
//! statements sent to the store, how result rows become entities, the error
//! taxonomy and its HTTP status codes, and what each request handler answers
//! for every outcome of the store. Running the queries and the HTTP server is
//! left to the caller, who hands the outcomes back as plain values.
pub mod constants;
pub mod model;
pub mod errors;
pub mod db;
pub mod handlers;
pub mod timestamp;
pub mod config;
pub mod client;
pub mod server;
pub mod ledger;
