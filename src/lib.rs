//! User registration and authentication: the data shapes of the users table,
//! the lookups the repository supports, password checks, token issuance and
//! the HTTP outcomes of the two routes.
//!
//! Database access and the HTTP server are asynchronous and live outside this
//! library; they hand plain values in and act on the values returned here.

mod clock;
pub mod dtos;
pub mod http;
pub mod models;
pub mod passwords;
pub mod repository;
pub mod service;
pub mod specifications;
pub mod token;
