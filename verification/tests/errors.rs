use aporture_client::errors::{
    HelloError, KeyExchangeError, NegotiationError, PairingError, PeerError, ReceiveError,
    SendError,
};
use aporture_client::peer::Error as TransferError;

#[test]
fn hello_failures_are_classified() {
    assert_eq!(PeerError::from(HelloError::NoServer), PeerError::NoServer);
    assert_eq!(PeerError::from(HelloError::NoPeer), PeerError::NoPeer);
    assert_eq!(PeerError::from(HelloError::ServerUnsupportedVersion), PeerError::InvalidServer);
    assert_eq!(PeerError::from(HelloError::ClientError), PeerError::InvalidServer);
    assert_eq!(PeerError::from(HelloError::ServerError), PeerError::ServerFailure);
}

#[test]
fn key_exchange_and_negotiation_fail_the_pairing() {
    assert_eq!(PeerError::from(KeyExchangeError), PeerError::PairingFailure);
    assert_eq!(PeerError::from(NegotiationError), PeerError::PairingFailure);
}

#[test]
fn pairing_failures_follow_their_cause() {
    assert_eq!(PeerError::from(PairingError::Hello(HelloError::NoPeer)), PeerError::NoPeer);
    assert_eq!(
        PeerError::from(PairingError::Hello(HelloError::ServerError)),
        PeerError::ServerFailure
    );
    assert_eq!(PeerError::from(PairingError::KeyExchange), PeerError::PairingFailure);
    assert_eq!(PeerError::from(PairingError::Negotiation), PeerError::PairingFailure);
    assert_eq!(PeerError::from(PairingError::AddressExchange), PeerError::PairingFailure);
}

#[test]
fn receive_failures_are_classified() {
    assert_eq!(PeerError::from(ReceiveError::File), PeerError::FileNotFound);
    assert_eq!(PeerError::from(ReceiveError::Destination), PeerError::FileNotFound);
    assert_eq!(PeerError::from(ReceiveError::Network), PeerError::TransferFailure);
    assert_eq!(PeerError::from(ReceiveError::Cipher), PeerError::TransferFailure);
    assert_eq!(PeerError::from(ReceiveError::HashMismatch), PeerError::HashMismatch);
}

#[test]
fn send_failures_are_classified() {
    assert_eq!(PeerError::from(SendError::File), PeerError::FileNotFound);
    assert_eq!(PeerError::from(SendError::Path), PeerError::FileNotFound);
    assert_eq!(PeerError::from(SendError::Subpath), PeerError::FileNotFound);
    assert_eq!(PeerError::from(SendError::Network), PeerError::TransferFailure);
    assert_eq!(PeerError::from(SendError::HashMismatch), PeerError::HashMismatch);
}

#[test]
fn transfer_errors_from_pairing() {
    assert_eq!(TransferError::from(PairingError::Hello(HelloError::NoServer)), TransferError::NoServer);
    assert_eq!(TransferError::from(PairingError::Hello(HelloError::NoPeer)), TransferError::NoPeer);
    assert_eq!(
        TransferError::from(PairingError::Hello(HelloError::ClientError)),
        TransferError::InvalidServer
    );
    assert_eq!(
        TransferError::from(PairingError::Hello(HelloError::ServerError)),
        TransferError::ServerFailure
    );
    assert_eq!(TransferError::from(PairingError::AddressExchange), TransferError::PairingFailure);
    assert_eq!(TransferError::from(PairingError::KeyExchange), TransferError::PairingFailure);
}

#[test]
fn transfer_errors_from_file_transfers() {
    assert_eq!(TransferError::from(SendError::Subpath), TransferError::FilePermission);
    assert_eq!(TransferError::from(SendError::Path), TransferError::FileNotFound);
    assert_eq!(TransferError::from(SendError::Network), TransferError::TransferFailure);
    assert_eq!(TransferError::from(ReceiveError::Destination), TransferError::FileNotFound);
    assert_eq!(TransferError::from(ReceiveError::Cipher), TransferError::TransferFailure);
    assert_eq!(TransferError::from(ReceiveError::HashMismatch), TransferError::HashMismatch);
}

#[test]
fn transfer_error_messages() {
    assert_eq!(TransferError::NoPeer.message(), "The peer sending the file has not arrived yet");
    assert_eq!(TransferError::NoServer.message(), "Could not connect to server");
    assert_eq!(
        TransferError::ServerFailure.message(),
        "The server is malfunctioning, please try again later"
    );
    assert_eq!(
        TransferError::FilePermission.message(),
        "You do not have access to the file you are trying to send"
    );
    assert_eq!(TransferError::NoContact.message(), "Contact not found");
    assert_eq!(TransferError::ContactSaving.message(), "Could not save the contact");
}
