//! State and rules of a contribution-scoring backend: one record per user
//! with a score, a personal best and a single-use reconciliation token; one
//! arbiter that holds the record threshold shared by all users; the check of
//! a caller's credentials; and an approximate rate limiter.
//!
//! Nothing here performs I/O. Each actor is a state machine over plain
//! values: a request goes in, the next state and a reply (or a call that the
//! host has to make) come out.

use vstd::prelude::*;
use vstd::string::StringExecFns;

pub mod amqp;
pub mod cache;
pub mod codec;
pub mod entropy;
pub mod installed_mods;
pub mod middleware;
pub mod mod_data;
pub mod mod_info;
pub mod text;
pub mod user;

verus! {

/// Name under which the host binds the namespace of the user actors and of the arbiter.
pub const STARSECTOR_MOD_AUTH: &'static str = "STARSECTOR_MOD_AUTH";

/// What a drain of a user's score hands out, and what an increment accepts:
/// a number of points, or the token that stands for an observed zero.
#[derive(Clone, Debug, PartialEq, Eq)]
pub enum ScoreKey {
    Score(u32),
    ZeroKey(String),
}

/// Mathematical value of a [`ScoreKey`].
pub enum ScoreKeyView {
    Score(nat),
    ZeroKey(Seq<char>),
}

impl View for ScoreKey {
    type V = ScoreKeyView;

    open spec fn view(&self) -> ScoreKeyView {
        match self {
            ScoreKey::Score(points) => ScoreKeyView::Score(*points as nat),
            ScoreKey::ZeroKey(token) => ScoreKeyView::ZeroKey(token@),
        }
    }
}

/// HTTP verbs that a request may carry.
#[derive(Clone, Copy, Debug, PartialEq, Eq, Structural)]
pub enum Method {
    Head,
    Get,
    Post,
    Put,
    Patch,
    Delete,
    Options,
    Connect,
    Trace,
}

/// A call on an actor, as the host hands it over: the path that names the
/// route, the verb, and the query string (without its `?`).
#[derive(Clone, Debug, PartialEq, Eq)]
pub struct ActorRequest {
    pub path: String,
    pub method: Method,
    pub query: String,
}

/// Mathematical value of an [`ActorRequest`].
pub struct ActorRequestView {
    pub path: Seq<char>,
    pub method: Method,
    pub query: Seq<char>,
}

impl View for ActorRequest {
    type V = ActorRequestView;

    open spec fn view(&self) -> ActorRequestView {
        ActorRequestView { path: self.path@, method: self.method, query: self.query@ }
    }
}

/// The value of the first pair of `pairs` whose name is `key`.
pub open spec fn first_value(pairs: Seq<(Seq<char>, Seq<char>)>, key: Seq<char>) -> Option<
    Seq<char>,
>
    decreases pairs.len(),
{
    if pairs.len() == 0 {
        None
    } else if pairs[0].0 == key {
        Some(pairs[0].1)
    } else {
        first_value(pairs.drop_first(), key)
    }
}

/// A request that an actor cannot serve because of what the caller sent.
#[derive(Clone, Debug, PartialEq, Eq)]
pub enum ProtocolError {
    /// The route exists but was called with another verb.
    InvalidMethod,
    /// The record that the request asks to create exists already.
    AlreadyInitialised,
    /// The zero-key offered for redemption is not the pending one.
    InvalidZeroKey,
    /// The request carries no usable value: none at all, or one that is not a number.
    NoValueSupplied,
    /// No route of that name.
    UnknownRoute(String),
}

/// Mathematical value of a [`ProtocolError`].
pub enum ProtocolErrorView {
    InvalidMethod,
    AlreadyInitialised,
    InvalidZeroKey,
    NoValueSupplied,
    UnknownRoute(Seq<char>),
}

impl View for ProtocolError {
    type V = ProtocolErrorView;

    open spec fn view(&self) -> ProtocolErrorView {
        match self {
            ProtocolError::InvalidMethod => ProtocolErrorView::InvalidMethod,
            ProtocolError::AlreadyInitialised => ProtocolErrorView::AlreadyInitialised,
            ProtocolError::InvalidZeroKey => ProtocolErrorView::InvalidZeroKey,
            ProtocolError::NoValueSupplied => ProtocolErrorView::NoValueSupplied,
            ProtocolError::UnknownRoute(path) => ProtocolErrorView::UnknownRoute(path@),
        }
    }
}

impl ProtocolErrorView {
    /// HTTP status that reports the error.
    pub open spec fn status(self) -> u16 {
        match self {
            ProtocolErrorView::InvalidMethod => 405,
            ProtocolErrorView::AlreadyInitialised => 409,
            ProtocolErrorView::InvalidZeroKey => 409,
            ProtocolErrorView::NoValueSupplied => 400,
            ProtocolErrorView::UnknownRoute(_) => 404,
        }
    }

    /// The text that reports the error.
    pub open spec fn message(self) -> Seq<char> {
        match self {
            ProtocolErrorView::InvalidMethod => "Invalid method"@,
            ProtocolErrorView::AlreadyInitialised => "User already initialised"@,
            ProtocolErrorView::InvalidZeroKey => "Zero-key invalid"@,
            ProtocolErrorView::NoValueSupplied => "No values supplied in request"@,
            ProtocolErrorView::UnknownRoute(path) => "Could not find path: "@ + path,
        }
    }
}

impl ProtocolError {
    /// HTTP status that reports the error.
    pub fn status(&self) -> (code: u16)
        ensures
            code == self@.status(),
    {
        match self {
            ProtocolError::InvalidMethod => 405,
            ProtocolError::AlreadyInitialised => 409,
            ProtocolError::InvalidZeroKey => 409,
            ProtocolError::NoValueSupplied => 400,
            ProtocolError::UnknownRoute(_) => 404,
        }
    }

    /// The text that reports the error.
    pub fn message(&self) -> (text: String)
        ensures
            text@ == self@.message(),
    {
        match self {
            ProtocolError::InvalidMethod => String::from_str("Invalid method"),
            ProtocolError::AlreadyInitialised => String::from_str("User already initialised"),
            ProtocolError::InvalidZeroKey => String::from_str("Zero-key invalid"),
            ProtocolError::NoValueSupplied => String::from_str("No values supplied in request"),
            ProtocolError::UnknownRoute(path) => {
                let mut text = String::from_str("Could not find path: ");
                text.append(path.as_str());
                text
            },
        }
    }
}

/// A request that fails for a reason on the actor's side; always reported as status 500.
#[derive(Clone, Copy, Debug, PartialEq, Eq, Structural)]
pub enum BackendError {
    /// The actor holds no record yet.
    MissingRecord,
    /// The counter cannot hold the value that the request asks for.
    CounterOverflow,
}

impl BackendError {
    /// HTTP status that reports the error.
    pub fn status(&self) -> (code: u16)
        ensures
            code == 500,
    {
        500
    }

    /// The text that reports the error.
    pub fn message(&self) -> (text: &'static str)
        ensures
            text@ == match self {
                BackendError::MissingRecord => "No such value in storage."@,
                BackendError::CounterOverflow => "attempt to add with overflow"@,
            },
    {
        match self {
            BackendError::MissingRecord => "No such value in storage.",
            BackendError::CounterOverflow => "attempt to add with overflow",
        }
    }
}

/// The name of the route that a request path addresses: the path without its leading slashes.
pub fn route_from_req(path: &str) -> (name: &str)
    ensures
        name@ == text::trim_start_spec(path@, '/'),
{
    text::trim_start_matches(path, '/')
}

} // verus!
