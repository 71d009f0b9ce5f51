//! Core of a small one-shot HTTP/1.1 server.
//!
//! The library covers everything the server decides or computes for one
//! connection: decoding and parsing the request bytes, routing by method and
//! path, rendering search results into HTML fragments, framing the HTTP
//! response, and classifying upstream search failures.  Socket handling, the
//! outbound search call and configuration loading are left to the surrounding
//! binary, which feeds this library plain values.

pub mod text;
pub mod response;
pub mod request;
pub mod content;
pub mod render;
pub mod search;
pub mod server;
