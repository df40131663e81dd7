//! A minimal HTTP/1.1 server library.
//!
//! The crate provides the wire types (methods, status codes, content types,
//! headers, cookies), a request parser, a response serializer, and the
//! routing and dispatch pipeline of a small web server. Every function is
//! specified and verified; the surrounding process (sockets, threads,
//! logging output) lives outside the library and hands it plain strings.

pub mod codes;
pub mod content_types;
pub mod cookies;
pub mod headers;
pub mod logger;
pub mod methods;
pub mod request;
pub mod response;
pub mod route;
pub mod server;
pub mod text;
