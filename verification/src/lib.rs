//! The rules of a small posts service: three routes over one table.
//!
//! Nothing in this crate reads a socket or talks to a database. It decides
//! what is to be done, and its caller does it:
//!
//! - [`models`] holds the `Post` record and the statements on its table;
//! - [`db`] holds the persistence context, which turns result rows into posts;
//! - [`filters`] holds the route table and the limit on request bodies;
//! - [`handlers`] holds the response of each route;
//! - [`service`] takes one request through these, step by step.

pub mod db;
pub mod filters;
pub mod handlers;
pub mod models;
pub mod service;
