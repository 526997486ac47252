//! Failures reported by the pairing and transfer protocols, and the way
//! the front ends classify them for the user.

use vstd::prelude::*;

verus! {

/// Failure while greeting the rendezvous server.
#[derive(Debug, Clone, Copy, PartialEq, Eq, Structural)]
pub enum HelloError {
    NoServer,
    NoPeer,
    ServerUnsupportedVersion,
    ClientError,
    ServerError,
}

/// Failure during the key exchange with the peer.
#[derive(Debug, Clone, Copy, PartialEq, Eq, Structural)]
pub struct KeyExchangeError;

/// Failure while negotiating the transfer with the peer.
#[derive(Debug, Clone, Copy, PartialEq, Eq, Structural)]
pub struct NegotiationError;

/// Any failure of the pairing protocol.
#[derive(Debug, Clone, Copy, PartialEq, Eq, Structural)]
pub enum PairingError {
    Hello(HelloError),
    KeyExchange,
    Negotiation,
    AddressExchange,
}

/// Failure while receiving a file.
#[derive(Debug, Clone, Copy, PartialEq, Eq, Structural)]
pub enum ReceiveError {
    File,
    Destination,
    Network,
    Cipher,
    HashMismatch,
}

/// Failure while sending a file.
#[derive(Debug, Clone, Copy, PartialEq, Eq, Structural)]
pub enum SendError {
    File,
    Path,
    Subpath,
    Network,
    HashMismatch,
}

/// What went wrong with the peer, as shown to the user.
#[derive(Debug, Clone, Copy, PartialEq, Eq, Structural)]
pub enum PeerError {
    NoPeer,
    NoServer,
    InvalidServer,
    ServerFailure,
    PairingFailure,
    FileNotFound,
    HashMismatch,
    TransferFailure,
}

pub open spec fn peer_error_of_hello(e: HelloError) -> PeerError {
    match e {
        HelloError::NoServer => PeerError::NoServer,
        HelloError::NoPeer => PeerError::NoPeer,
        HelloError::ServerUnsupportedVersion | HelloError::ClientError => PeerError::InvalidServer,
        HelloError::ServerError => PeerError::ServerFailure,
    }
}

pub open spec fn peer_error_of_pairing(e: PairingError) -> PeerError {
    match e {
        PairingError::Hello(h) => peer_error_of_hello(h),
        _ => PeerError::PairingFailure,
    }
}

pub open spec fn peer_error_of_receive(e: ReceiveError) -> PeerError {
    match e {
        ReceiveError::File | ReceiveError::Destination => PeerError::FileNotFound,
        ReceiveError::Network | ReceiveError::Cipher => PeerError::TransferFailure,
        ReceiveError::HashMismatch => PeerError::HashMismatch,
    }
}

pub open spec fn peer_error_of_send(e: SendError) -> PeerError {
    match e {
        SendError::File | SendError::Path | SendError::Subpath => PeerError::FileNotFound,
        SendError::Network => PeerError::TransferFailure,
        SendError::HashMismatch => PeerError::HashMismatch,
    }
}

impl From<HelloError> for PeerError {
    fn from(e: HelloError) -> (r: Self) {
        match e {
            HelloError::NoServer => PeerError::NoServer,
            HelloError::NoPeer => PeerError::NoPeer,
            HelloError::ServerUnsupportedVersion | HelloError::ClientError => {
                PeerError::InvalidServer
            },
            HelloError::ServerError => PeerError::ServerFailure,
        }
    }
}

impl vstd::std_specs::convert::FromSpecImpl<HelloError> for PeerError {
    open spec fn obeys_from_spec() -> bool {
        true
    }

    open spec fn from_spec(e: HelloError) -> Self {
        peer_error_of_hello(e)
    }
}


impl From<KeyExchangeError> for PeerError {
    fn from(e: KeyExchangeError) -> (r: Self) {
        PeerError::PairingFailure
    }
}

impl vstd::std_specs::convert::FromSpecImpl<KeyExchangeError> for PeerError {
    open spec fn obeys_from_spec() -> bool {
        true
    }

    open spec fn from_spec(e: KeyExchangeError) -> Self {
        PeerError::PairingFailure
    }
}

impl From<NegotiationError> for PeerError {
    fn from(e: NegotiationError) -> (r: Self) {
        PeerError::PairingFailure
    }
}

impl vstd::std_specs::convert::FromSpecImpl<NegotiationError> for PeerError {
    open spec fn obeys_from_spec() -> bool {
        true
    }

    open spec fn from_spec(e: NegotiationError) -> Self {
        PeerError::PairingFailure
    }
}

impl From<PairingError> for PeerError {
    fn from(e: PairingError) -> (r: Self) {
        match e {
            PairingError::Hello(h) => PeerError::from(h),
            PairingError::KeyExchange => PeerError::from(KeyExchangeError),
            PairingError::Negotiation => PeerError::from(NegotiationError),
            PairingError::AddressExchange => PeerError::PairingFailure,
        }
    }
}

impl vstd::std_specs::convert::FromSpecImpl<PairingError> for PeerError {
    open spec fn obeys_from_spec() -> bool {
        true
    }

    open spec fn from_spec(e: PairingError) -> Self {
        peer_error_of_pairing(e)
    }
}

impl From<ReceiveError> for PeerError {
    fn from(e: ReceiveError) -> (r: Self) {
        match e {
            ReceiveError::File | ReceiveError::Destination => PeerError::FileNotFound,
            ReceiveError::Network | ReceiveError::Cipher => PeerError::TransferFailure,
            ReceiveError::HashMismatch => PeerError::HashMismatch,
        }
    }
}

impl vstd::std_specs::convert::FromSpecImpl<ReceiveError> for PeerError {
    open spec fn obeys_from_spec() -> bool {
        true
    }

    open spec fn from_spec(e: ReceiveError) -> Self {
        peer_error_of_receive(e)
    }
}

impl From<SendError> for PeerError {
    fn from(e: SendError) -> (r: Self) {
        match e {
            SendError::File | SendError::Path | SendError::Subpath => PeerError::FileNotFound,
            SendError::Network => PeerError::TransferFailure,
            SendError::HashMismatch => PeerError::HashMismatch,
        }
    }
}

impl vstd::std_specs::convert::FromSpecImpl<SendError> for PeerError {
    open spec fn obeys_from_spec() -> bool {
        true
    }

    open spec fn from_spec(e: SendError) -> Self {
        peer_error_of_send(e)
    }
}

/// A pairing failure is classified the same way whether it arrives as a
/// greeting failure or wrapped in the general pairing failure.
pub proof fn law_pairing_classification_agrees(h: HelloError)
    ensures
        peer_error_of_pairing(PairingError::Hello(h)) == peer_error_of_hello(h),
{
}

} // verus!
