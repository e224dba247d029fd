//! Values shared by the messages an authenticator and an app exchange.

use vstd::prelude::*;

verus! {

/// Network connection settings handed to an app on authentication. It
/// carries no settings of its own yet.
#[derive(Clone, Copy, Debug, PartialEq, Eq)]
pub struct Config;

/// Errors in the exchange between an authenticator and an app.
#[derive(Clone, Debug, PartialEq, Eq)]
pub enum IpcError {
    /// The user refused to authenticate the app.
    AuthDenied,
    /// The user refused the app access to the requested containers.
    ContainersDenied,
    /// The message could not be understood.
    InvalidMsg,
    /// Encoding or decoding failed.
    EncodeDecodeError,
    /// The app is already authorised.
    AlreadyAuthorised,
    /// The app is not known to the authenticator.
    UnknownApp,
    /// Something that should not happen, with a description.
    Unexpected(String),
}

} // verus!
