//! A line-oriented JSON-RPC adapter in front of the RDW open-data vehicle
//! registers. The crate holds the verified core: identifier normalisation,
//! the endpoint registry, decoding of upstream replies, and the dispatcher
//! that turns one request into either a response line or a set of lookups.
//! Reading lines, performing the HTTP requests and writing lines is left to
//! the program that embeds this library.

pub mod dispatch;
pub mod json;
pub mod kenteken;
pub mod protocol;
pub mod registry;
pub mod text;
pub mod tools;
pub mod upstream;
