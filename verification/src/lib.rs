//! A multi-tenant static-content gateway: the rules that turn a request's
//! host and path into an object key, and a storage outcome into a response.

pub mod config;
pub mod decode;
pub mod handler;
pub mod resolve;
pub mod response;
pub mod text;
