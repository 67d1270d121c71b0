//! The shapes of the gateway's IPC messages, as far as the library cares:
//! a numeric message type, optionally with a payload.
//!
//! Serializing these to the wire and back is plain translation work and
//! happens outside the library; here they are the plain data the rest of
//! the code can speak about.

use vstd::prelude::*;

verus! {

/// An outgoing message: a message type with a borrowed payload.
pub struct PayloadMessage<'a, T> {
    pub message_type: u32,
    pub data: &'a T,
}

/// The first look at an incoming message: its type alone, so the payload
/// shape can be picked before the payload is read.
#[derive(Clone, Copy, Debug, PartialEq, Eq, Structural)]
pub struct TypeMessage {
    pub message_type: u32,
}

/// An incoming message once its type is known: the type and the payload.
pub struct IncomingPayloadMessage<T> {
    pub message_type: u32,
    pub data: T,
}

} // verus!
