//! The product resource: its data, the statements that read and change it,
//! and the routes under which it is served.

pub mod handler;
pub mod model;
pub mod routes;
