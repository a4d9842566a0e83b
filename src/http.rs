//! The JSON-over-HTTP surface: which endpoint serves a request, the body size
//! limit, and the status of each error.

use vstd::prelude::*;
use crate::network::Network;

verus! {

/// Version of the signer, reported by the version endpoint.
pub const VERSION: &'static str = "0.1.0";

/// Largest request body accepted, in bytes.
pub const BODY_LIMIT: usize = 131072;

/// The network whose signer answers address requests.
pub const DEFAULT_NETWORK: Network = Network::Dolphin;

/// Request method.
#[derive(Clone, Copy, Debug, PartialEq, Eq, Structural)]
pub enum Method {
    /// GET
    Get,
    /// POST
    Post,
}

/// The operations served over HTTP.
#[derive(Clone, Copy, Debug, PartialEq, Eq, Structural)]
pub enum Endpoint {
    /// The signer's version
    Version,
    /// Fold a ledger update into the signer's view
    Sync,
    /// Sign a transaction
    Sign,
    /// The receiving address
    Address,
}

impl Endpoint {
    /// Whether serving the endpoint changes the signer's state, so that a save
    /// is scheduled after it.
    pub fn saves_state(&self) -> (r: bool)
        ensures
            r == (*self == Endpoint::Sync),
    {
        match self {
            Endpoint::Sync => true,
            _ => false,
        }
    }

    /// The network whose signer serves a request naming `requested`: the
    /// address is always read from the default network.
    pub fn signer_network(&self, requested: Network) -> (r: Network)
        ensures
            *self == Endpoint::Address ==> r == DEFAULT_NETWORK,
            *self != Endpoint::Address ==> r == requested,
    {
        match self {
            Endpoint::Address => DEFAULT_NETWORK,
            _ => requested,
        }
    }
}

/// The endpoint for `method` and `path`, if any.
pub open spec fn endpoint_of(method: Method, path: Seq<char>) -> Option<Endpoint> {
    match method {
        Method::Get => if path == "/version"@ {
            Some(Endpoint::Version)
        } else {
            None
        },
        Method::Post => if path == "/sync"@ {
            Some(Endpoint::Sync)
        } else if path == "/sign"@ {
            Some(Endpoint::Sign)
        } else if path == "/address"@ || path == "/receivingKeys"@ {
            Some(Endpoint::Address)
        } else {
            None
        },
    }
}

/// Routes a request; `None` is answered with 404.
pub fn route(method: Method, path: &String) -> (r: Option<Endpoint>)
    ensures
        r == endpoint_of(method, path@),
{
    match method {
        Method::Get => if *path == "/version".to_owned() {
            Some(Endpoint::Version)
        } else {
            None
        },
        Method::Post => if *path == "/sync".to_owned() {
            Some(Endpoint::Sync)
        } else if *path == "/sign".to_owned() {
            Some(Endpoint::Sign)
        } else if *path == "/address".to_owned() || *path == "/receivingKeys".to_owned() {
            Some(Endpoint::Address)
        } else {
            None
        },
    }
}

/// Whether a body of `len` bytes is accepted.
pub fn body_within_limit(len: usize) -> (r: bool)
    ensures
        r == (len <= BODY_LIMIT),
{
    len <= BODY_LIMIT
}

/// Errors of the signer service.
#[derive(Clone, Copy, Debug, PartialEq, Eq, Structural)]
pub enum Error {
    /// The listening address did not parse
    AddrParseError,
    /// A blocking task died
    JoinError,
    /// The static cryptographic parameters are missing or corrupt
    ParameterLoadingError,
    /// Writing the state failed
    SaveError,
    /// Some other file system error
    Io,
    /// The user declined, or the password did not match
    AuthorizationError,
}

impl Error {
    /// The HTTP status a request that failed with `self` is answered with:
    /// 401 for an authorization failure, 500 for everything else.
    pub fn status_code(&self) -> (r: u16)
        ensures
            r == (if *self == Error::AuthorizationError { 401u16 } else { 500u16 }),
    {
        match self {
            Error::AuthorizationError => 401,
            _ => 500,
        }
    }

    /// The text of [`Self::describe`].
    pub open spec fn description(&self) -> Seq<char> {
        match self {
            Error::AddrParseError => "Address Parse Error"@,
            Error::JoinError => "Join Error"@,
            Error::ParameterLoadingError => "Parameter Loading Error"@,
            Error::SaveError => "Save Error"@,
            Error::Io => "I/O Error"@,
            Error::AuthorizationError => "Authorization Error"@,
        }
    }

    /// A short description of the error.
    pub fn describe(&self) -> (r: &'static str)
        ensures
            r@ == self.description(),
    {
        match self {
            Error::AddrParseError => "Address Parse Error",
            Error::JoinError => "Join Error",
            Error::ParameterLoadingError => "Parameter Loading Error",
            Error::SaveError => "Save Error",
            Error::Io => "I/O Error",
            Error::AuthorizationError => "Authorization Error",
        }
    }
}

/// Status of a request that ends with a body too large to read.
pub const PAYLOAD_TOO_LARGE_STATUS: u16 = 500;

/// Status of a request for an unknown endpoint.
pub const NOT_FOUND_STATUS: u16 = 404;

/// The status of a request: 404 for an unknown endpoint, 500 for a body over
/// the limit, else that of its error, or 200.
pub fn request_status(endpoint: Option<Endpoint>, body_len: usize, outcome: Option<Error>) -> (r: u16)
    ensures
        endpoint is None ==> r == 404,
        endpoint is Some && body_len > BODY_LIMIT ==> r == 500,
        endpoint is Some && body_len <= BODY_LIMIT && outcome is None ==> r == 200,
        endpoint is Some && body_len <= BODY_LIMIT && outcome == Some(Error::AuthorizationError) ==> r == 401,
        endpoint is Some && body_len <= BODY_LIMIT && outcome is Some
            && outcome != Some(Error::AuthorizationError) ==> r == 500,
{
    if endpoint.is_none() {
        return NOT_FOUND_STATUS;
    }
    if !body_within_limit(body_len) {
        return PAYLOAD_TOO_LARGE_STATUS;
    }
    match outcome {
        None => 200,
        Some(e) => e.status_code(),
    }
}

} // verus!
