//! The shape of every answer the service gives: an HTTP status code paired
//! with a typed body. Handlers build these values; the transport layer turns
//! them into wire responses.

use vstd::prelude::*;

verus! {

/// Status code for a plain successful answer.
pub const STATUS_OK: u16 = 200;

/// Status code for an answer that reports a created resource.
pub const STATUS_CREATED: u16 = 201;

/// A reply from a handler: the HTTP status code it chose and the body it
/// built. The body is always a typed struct with an explicit field set, so
/// the shape of every route's answer is fixed by its type.
pub struct HttpReply<B> {
    pub status: u16,
    pub body: B,
}

/// A body holding nothing but a human-readable acknowledgment.
#[derive(Debug)]
pub struct MessageBody {
    pub message: String,
}

} // verus!
