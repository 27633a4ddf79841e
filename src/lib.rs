//! The request and reply messages of a small item service, the logic of its
//! three handlers, and the table of routes they are served under.

pub mod handlers;
pub mod routes;

pub use handlers::{complex_endpoint, health_check, simple_endpoint, Health, Item, Response, SimpleResponse};
pub use routes::{routes, Method, Route, PORT};
