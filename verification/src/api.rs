//! The HTTP face of the service, without the transport: what a request
//! becomes, and what is answered.

pub mod container;
pub mod routes;
