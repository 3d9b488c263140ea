//! The report of a client's installed mods, on its way to the message
//! broker: who may report, where the report goes, and whether it arrived.

use vstd::prelude::*;
use vstd::string::StringExecFns;

verus! {

/// Name of the request header that tells the client's software.
pub const USER_AGENT_HEADER: &'static str = "User-Agent";

/// Name of the account at the message broker.
pub const AMQP_USERNAME: &'static str = "rbetzayv";

/// Routing key under which reports are published.
pub const WRITE_ROUTING_KEY: &'static str = "write";

/// Why a report does not reach the broker.
#[derive(Clone, Copy, Debug, PartialEq, Eq, Structural)]
pub enum ReportError {
    /// The client does not tell its software; status 400.
    InvalidUserAgent,
    /// The report cannot be read; status 400.
    MalformedRequest,
    /// The broker did not route the report; status 502.
    NotRouted,
}

impl ReportError {
    /// HTTP status that reports the error.
    pub open spec fn spec_status(self) -> u16 {
        match self {
            ReportError::InvalidUserAgent => 400,
            ReportError::MalformedRequest => 400,
            ReportError::NotRouted => 502,
        }
    }

    /// HTTP status that reports the error.
    #[verifier::when_used_as_spec(spec_status)]
    pub fn status(self) -> (code: u16)
        ensures
            code == self.spec_status(),
    {
        match self {
            ReportError::InvalidUserAgent => 400,
            ReportError::MalformedRequest => 400,
            ReportError::NotRouted => 502,
        }
    }

    /// The text that reports the error.
    pub fn message(self) -> (text: &'static str)
        ensures
            text@ == match self {
                ReportError::InvalidUserAgent => "Invalid User-Agent"@,
                ReportError::MalformedRequest => "Malformed request"@,
                ReportError::NotRouted => "Failed to write to RabbitMQ"@,
            },
    {
        match self {
            ReportError::InvalidUserAgent => "Invalid User-Agent",
            ReportError::MalformedRequest => "Malformed request",
            ReportError::NotRouted => "Failed to write to RabbitMQ",
        }
    }
}

/// A report is taken only from a client that tells its software: the
/// `User-Agent` header is there and not empty.
pub fn check_user_agent(agent: Option<&str>) -> (verdict: Result<(), ReportError>)
    ensures
        verdict is Ok <==> (agent matches Some(name) && name@.len() > 0),
        verdict matches Err(error) ==> error == ReportError::InvalidUserAgent,
{
    match agent {
        Some(name) => if name.is_empty() {
            Err(ReportError::InvalidUserAgent)
        } else {
            Ok(())
        },
        None => Err(ReportError::InvalidUserAgent),
    }
}

/// Where the broker takes messages of the account `username` for publication.
pub fn publish_target(username: &str) -> (url: String)
    ensures
        url@ == "https://moose.rmq.cloudamqp.com/api/exchanges/"@ + username@
            + "/amq.default/publish"@,
{
    let mut url = String::from_str("https://moose.rmq.cloudamqp.com/api/exchanges/");
    url.append(username);
    url.append("/amq.default/publish");
    url
}

/// The report arrived only if the broker says that it routed it; `routed`
/// is the flag of that name in the broker's answer, if it has one.
pub fn check_routed(routed: Option<bool>) -> (verdict: Result<(), ReportError>)
    ensures
        verdict is Ok <==> routed == Some(true),
        verdict matches Err(error) ==> error == ReportError::NotRouted,
{
    match routed {
        Some(true) => Ok(()),
        _ => Err(ReportError::NotRouted),
    }
}

} // verus!
