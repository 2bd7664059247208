//! Request handling and persistence mapping of a product catalogue served
//! over HTTP.
//!
//! The crate decides and the program around it acts. For each request the
//! route table ([`routes`]) names the operation; the operation
//! ([`product::handler`]) gives the one statement ([`statement`]) to send to
//! the store and, from what the store gave back, the response
//! ([`response`]). Every failure of the store is answered alike, with status
//! 500 and one envelope ([`errors`]). Bodies are JSON documents ([`json`]).

pub mod errors;
pub mod json;
pub mod ping;
pub mod product;
pub mod response;
pub mod routes;
pub mod statement;
