//! The error taxonomy of the engine.
//!
//! A `ConfigError` is fatal at startup and aborts before any client runs.
//! A `ClientError` is isolated to one virtual client: a connect failure
//! ends that client's run, a protocol failure is counted against the
//! offending step, and neither cancels sibling clients.

use vstd::prelude::*;
use vstd::string::StringExecFns;

verus! {

/// A malformed or missing scenario field, found while the scenario is
/// built and before any client starts.
#[derive(Clone, Copy, Debug, PartialEq, Eq, Structural)]
pub enum ConfigError {
    /// The protocol name is neither `http` nor `mqtt`.
    UnknownProtocol,
    /// The scenario asks for zero virtual clients.
    NoClients,
    /// The scenario asks for more clients than this machine can index.
    TooManyClients,
    /// The port does not fit a sixteen-bit port number.
    BadPort,
    /// The `duration` field is not a readable duration string.
    BadDuration,
    /// The `ramp-up` field is not a readable duration string.
    BadRampUp,
    /// The `interval` field is not a readable duration string.
    BadInterval,
    /// An `http` step carries no endpoint.
    MissingEndpoint,
    /// An `mqtt` scenario carries no credentials.
    MissingCredentials,
}

/// The text of a configuration error.
pub open spec fn config_error_text(e: ConfigError) -> Seq<char> {
    match e {
        ConfigError::UnknownProtocol => "no known protocol specified"@,
        ConfigError::NoClients => "the scenario needs at least one client"@,
        ConfigError::TooManyClients => "too many clients for this machine"@,
        ConfigError::BadPort => "the port is out of range"@,
        ConfigError::BadDuration => "the duration field is not a duration"@,
        ConfigError::BadRampUp => "the ramp-up field is not a duration"@,
        ConfigError::BadInterval => "the interval field is not a duration"@,
        ConfigError::MissingEndpoint => "a step carries no endpoint"@,
        ConfigError::MissingCredentials => "mqtt needs credentials"@,
    }
}

impl ConfigError {
    /// A human-readable message for the startup report.
    pub fn message(&self) -> (r: String)
        ensures
            r@ == config_error_text(*self),
    {
        match self {
            ConfigError::UnknownProtocol => String::from_str("no known protocol specified"),
            ConfigError::NoClients => String::from_str("the scenario needs at least one client"),
            ConfigError::TooManyClients => String::from_str("too many clients for this machine"),
            ConfigError::BadPort => String::from_str("the port is out of range"),
            ConfigError::BadDuration => String::from_str("the duration field is not a duration"),
            ConfigError::BadRampUp => String::from_str("the ramp-up field is not a duration"),
            ConfigError::BadInterval => String::from_str("the interval field is not a duration"),
            ConfigError::MissingEndpoint => String::from_str("a step carries no endpoint"),
            ConfigError::MissingCredentials => String::from_str("mqtt needs credentials"),
        }
    }
}

/// A failure inside one virtual client's run.
#[derive(Clone, Copy, Debug, PartialEq, Eq, Structural)]
pub enum ClientError {
    /// The transport connection could not be established; the client
    /// cannot proceed, but its siblings keep running.
    Connection,
    /// One request, publish or subscribe call failed; the iteration is
    /// counted as failed and the loop goes on.
    Protocol,
}

/// The text of a client error.
pub open spec fn client_error_text(e: ClientError) -> Seq<char> {
    match e {
        ClientError::Connection => "the connection could not be established"@,
        ClientError::Protocol => "a protocol call failed"@,
    }
}

impl ClientError {
    /// A human-readable message for the error summary.
    pub fn message(&self) -> (r: String)
        ensures
            r@ == client_error_text(*self),
    {
        match self {
            ClientError::Connection => String::from_str("the connection could not be established"),
            ClientError::Protocol => String::from_str("a protocol call failed"),
        }
    }
}

} // verus!
