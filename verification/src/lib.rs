//! A client library for a remote transformation service: it keeps recipes
//! (stored transformation pipelines) and server endpoints in a local
//! persistent store, assembles a JSON request from raw input bytes and a
//! stored recipe, and interprets the server's response.

pub mod errors;
pub mod escape;
pub mod request;
pub mod response;
pub mod store;
pub mod text;
