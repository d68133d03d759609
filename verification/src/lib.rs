//! A view counter served as an SVG badge.
//!
//! Every request for the badge is recorded as one row of a request log, and the
//! identifier that the log assigns to the row is drawn into the badge as the
//! count. This crate holds the rules of that service: the layout of the badge,
//! the steps of the transaction that records a view, the responses of the two
//! routes and the configuration defaults. Talking to the network and to the
//! database is left to the program built around it.

pub mod badge;
pub mod config;
pub mod decimal;
pub mod http;
pub mod markup;
pub mod store;
