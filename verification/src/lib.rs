//! Request handling for a name-service lookup daemon: the dispatcher that
//! turns a decoded request into an identity lookup, and the encoders that lay
//! the looked-up user or group record out as the bytes the C library's
//! client reads back.
//!
//! The client was written against a fixed memory layout, so a response is
//! exact to the byte or it is wrong. What a response is, is therefore stated
//! as a function from the record to its bytes ([`response`]), the encoders
//! are proved to compute that function ([`handlers`]), and the function is
//! proved to be read back by a client that goes by the header alone
//! ([`decode`]).
//!
//! - [`protocol`]: the kinds of request, and the headers of the responses.
//! - [`records`]: the user and group records, as bytes and numbers.
//! - [`key`]: reading the key of a request as an id or as a name.
//! - [`identity`]: the lookups in the operating system's identity database.
//! - [`handlers`]: `handle_request`, and the encoders of the responses.
//! - [`response`], [`decode`]: what a response holds, and what it means.
//! - [`text`], [`wire`]: text fields and integers on the wire.
//! - [`error`]: the ways in which a request can fail.

pub mod decode;
pub mod error;
pub mod handlers;
pub mod identity;
pub mod key;
pub mod protocol;
pub mod records;
pub mod response;
pub mod text;
pub mod wire;
