//! The message that asks the broker's HTTP API to publish a payload.

use crate::codec::{base64_encode, base64_encoded};
use vstd::prelude::*;
use vstd::string::StringSliceAdditionalSpecFns;

verus! {

/// Properties of a published message; the broker wants the field, and none is set.
#[derive(Clone, Copy, Debug, PartialEq, Eq, Structural)]
pub struct Stub {}

/// A publish request: the routing key and the payload in Base64.
#[derive(Clone, Debug, PartialEq, Eq)]
pub struct HTTPAmqp {
    properties: Stub,
    routing_key: String,
    payload: String,
    payload_encoding: String,
}

/// Mathematical value of an [`HTTPAmqp`].
pub struct HTTPAmqpView {
    pub routing_key: Seq<char>,
    pub payload: Seq<char>,
    pub payload_encoding: Seq<char>,
}

impl View for HTTPAmqp {
    type V = HTTPAmqpView;

    closed spec fn view(&self) -> HTTPAmqpView {
        HTTPAmqpView {
            routing_key: self.routing_key@,
            payload: self.payload@,
            payload_encoding: self.payload_encoding@,
        }
    }
}

impl HTTPAmqp {
    /// Wraps `payload`, the serialised message, for publication under `routing_key`.
    pub fn new(routing_key: &str, payload: &str) -> (message: HTTPAmqp)
        ensures
            message@.routing_key == routing_key@,
            message@.payload == base64_encoded(payload.spec_bytes()),
            message@.payload_encoding == "base64"@,
    {
        HTTPAmqp {
            properties: Stub {  },
            routing_key: routing_key.to_owned(),
            payload: base64_encode(payload.as_bytes()),
            payload_encoding: "base64".to_owned(),
        }
    }

    /// The message properties.
    pub fn properties(&self) -> Stub {
        self.properties
    }

    /// The key by which the broker routes the message.
    pub fn routing_key(&self) -> (key: &str)
        ensures
            key@ == self@.routing_key,
    {
        self.routing_key.as_str()
    }

    /// The payload, in Base64.
    pub fn payload(&self) -> (payload: &str)
        ensures
            payload@ == self@.payload,
    {
        self.payload.as_str()
    }

    /// The name of the payload's encoding.
    pub fn payload_encoding(&self) -> (name: &str)
        ensures
            name@ == self@.payload_encoding,
    {
        self.payload_encoding.as_str()
    }
}

} // verus!
