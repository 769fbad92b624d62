//! Short links with a limited life, and what the file browser beside them
//! computes.
//!
//! A short link is a key of five symbols that redirects to a target URL
//! until it expires or its usage budget is spent. [`store`] holds the
//! records and changes them one whole step at a time, [`service`] creates
//! and resolves links on top of it, [`redirect`] answers the server's three
//! requests, and [`laws`] states what holds of every run of them.
//! [`duration`] and [`client`] serve the program that asks for links.
//!
//! [`models`], [`sessions`] and [`users`] hold the listings, the sessions
//! and the passwords of the file browser.

pub mod error;
pub mod duration;
pub mod key;
pub mod types;
pub mod store;
pub mod retry;
pub mod service;
pub mod redirect;
pub mod laws;
pub mod client;
pub mod models;
pub mod sessions;
pub mod users;
