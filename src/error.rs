//! Errors of the library.
use vstd::prelude::*;

verus! {

/// What can go wrong while configuring the server or selecting a mapping.
#[derive(Clone, Copy, Debug, PartialEq, Eq, Structural)]
pub enum Error {
    /// The proxy is switched on but no proxy url was given.
    InvalidProxyConfig,
    /// The runtime configuration could not be created.
    InvalidRuntimeConfig,
    /// Two mappings were stored under the same identifier.
    MappingKeyCollision,
    /// No mapping matches the request.
    MappingNotFound,
}

impl Error {
    /// The message that describes this error.
    pub fn message(&self) -> (r: String)
        ensures
            r@ == error_message(*self),
    {
        match self {
            Error::InvalidProxyConfig => "invalid proxy configuration! proxy url is required".to_owned(),
            Error::InvalidRuntimeConfig => "invalid runtime configuration!".to_owned(),
            Error::MappingKeyCollision => "mapping key collision".to_owned(),
            Error::MappingNotFound => "No mapping found".to_owned(),
        }
    }
}

/// The message of each error.
pub open spec fn error_message(e: Error) -> Seq<char> {
    match e {
        Error::InvalidProxyConfig => "invalid proxy configuration! proxy url is required"@,
        Error::InvalidRuntimeConfig => "invalid runtime configuration!"@,
        Error::MappingKeyCollision => "mapping key collision"@,
        Error::MappingNotFound => "No mapping found"@,
    }
}

} // verus!
