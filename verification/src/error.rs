//! The errors of the node.

use vstd::prelude::*;

use crate::network::PeerAddr;

verus! {

/// Errors of the TLS layer of a connection.
#[derive(Clone, Debug, PartialEq, Eq)]
pub enum TlsError {
    /// The TCP connection could not be made; the I/O error's description.
    TcpConnection(String),
    /// `TCP_NODELAY` could not be set.
    TcpNoDelay,
    /// The TLS stream could not be set up; the OpenSSL error's description.
    TlsInitialization(String),
    /// The TLS handshake failed; the error's description.
    TlsHandshake(String),
    /// The peer sent no certificate.
    NoPeerCertificate,
    /// The peer's certificate did not validate.
    FailedToValidateSignature,
}

/// Errors of the communications module.
#[derive(Clone, Debug, PartialEq, Eq)]
pub enum ManagerError {
    /// The listener could not be bound to the address; the I/O error's
    /// description.
    ListenerCreation(String, PeerAddr),
    /// There is no connection to the peer.
    PeerNotFound,
    /// A TLS error.
    Tls(TlsError),
    /// Our handshake could not be encoded; the encoder's description.
    CouldNotEncodeOurHandshake(String),
}

/// The errors of the node.
#[derive(Clone, Debug, PartialEq, Eq)]
pub enum Error {
    /// Error from the Communications module.
    NetworkManager(ManagerError),
}

impl From<ManagerError> for Error {
    fn from(err: ManagerError) -> (r: Self) {
        Error::NetworkManager(err)
    }
}

impl vstd::std_specs::convert::FromSpecImpl<ManagerError> for Error {
    open spec fn obeys_from_spec() -> bool {
        true
    }

    open spec fn from_spec(err: ManagerError) -> Self {
        Error::NetworkManager(err)
    }
}

impl From<TlsError> for ManagerError {
    fn from(err: TlsError) -> (r: Self) {
        ManagerError::Tls(err)
    }
}

impl vstd::std_specs::convert::FromSpecImpl<TlsError> for ManagerError {
    open spec fn obeys_from_spec() -> bool {
        true
    }

    open spec fn from_spec(err: TlsError) -> Self {
        ManagerError::Tls(err)
    }
}

} // verus!
