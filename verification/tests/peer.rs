use aporture_client::contacts::ContactBook;
use aporture_client::app::{finished_requests, sender_finished_requests, Request};
use aporture_client::errors::{HelloError, PairingError, ReceiveError, SendError};
use aporture_client::peer::{
    after_finalizing, after_pairing, after_receiving, after_saving, after_sending, begin,
    record_contact, resolve_passphrase, ContactAction, Error as TransferError, Next, Params,
    PassphraseMethod, State, TransferType,
};
use aporture_client::toaster::{Icon, Severity};

#[test]
fn direct_passphrase_is_passed_through() {
    let book = ContactBook::empty();
    let r = resolve_passphrase(&PassphraseMethod::Direct(vec![1, 2]), &book);
    assert_eq!(r, Ok(vec![1, 2]));
}

#[test]
fn contact_passphrase_needs_the_contact() {
    let mut book = ContactBook::empty();
    book.add("ana".to_string(), vec![3], 0);
    assert_eq!(resolve_passphrase(&PassphraseMethod::Contact("ana".to_string()), &book), Ok(vec![3]));
    assert_eq!(
        resolve_passphrase(&PassphraseMethod::Contact("leo".to_string()), &book),
        Err(TransferError::NoContact)
    );
}

#[test]
fn contact_recorded_when_asked_and_accepted() {
    let mut book = ContactBook::empty();
    assert_eq!(record_contact(&mut book, None, true, vec![1], 5), ContactAction::NoOp);
    assert!(book.list().is_empty());
    assert_eq!(
        record_contact(&mut book, Some("ana".to_string()), false, vec![1], 5),
        ContactAction::PeerRefused
    );
    assert!(!book.contains("ana"));
    assert_eq!(
        record_contact(&mut book, Some("ana".to_string()), true, vec![9], 5),
        ContactAction::Added
    );
    assert_eq!(
        resolve_passphrase(&PassphraseMethod::Contact("ana".to_string()), &book),
        Ok(vec![9])
    );
}

fn direct() -> PassphraseMethod {
    PassphraseMethod::Direct(b"uno-dos-tres".to_vec())
}

fn contact() -> PassphraseMethod {
    PassphraseMethod::Contact("ana".to_string())
}

#[test]
fn titles_name_the_passphrase_or_contact() {
    let send = TransferType::Send(Params::new(direct(), "/f", None::<(String, u32)>));
    assert_eq!(send.title(), "Sending file with passphrase:\nuno-dos-tres");
    let send = TransferType::Send(Params::new(contact(), "/f", None::<(String, u32)>));
    assert_eq!(send.title(), "Sending file to contact\nana");
    let receive = TransferType::Receive(Params::new(direct(), "/d", Some(("bo".to_string(), 7u32))));
    assert_eq!(receive.title(), "Receiving file with passphrase:\nuno-dos-tres");
    let receive = TransferType::Receive(Params::new(contact(), "/d", None::<(String, u32)>));
    assert_eq!(receive.title(), "Receiving file from contact\nana");
}

#[test]
fn icons_of_directions_and_severities() {
    assert_eq!(TransferType::Send(Params::new(direct(), 0u8, None::<(String, u32)>)).icon(), Icon::Send);
    assert_eq!(TransferType::Receive(Params::new(direct(), 0u8, None::<(String, u32)>)).icon(), Icon::Inbox);
    assert_eq!(Severity::Info.icon(), Icon::InfoOutline);
    assert_eq!(Severity::Success.icon(), Icon::SuccessSmall);
    assert_eq!(Severity::Warn.icon(), Icon::WarningOutline);
    assert_eq!(Severity::Error.icon(), Icon::MinusCircleOutline);
    assert_eq!(Severity::Info.color(), "accent");
    assert_eq!(Severity::Success.color(), "success");
    assert_eq!(Severity::Warn.color(), "warning");
    assert_eq!(Severity::Error.color(), "error");
}

fn toast(t: &str, s: Severity) -> Request {
    Request::Toast(t.to_string(), s)
}

#[test]
fn finished_transfer_requests() {
    let done = toast("Transfer completed!", Severity::Success);
    assert_eq!(finished_requests(&Ok(ContactAction::NoOp)), vec![done.clone_request()]);
    assert_eq!(
        finished_requests(&Ok(ContactAction::Added)),
        vec![done.clone_request(), Request::Contacts]
    );
    assert_eq!(
        finished_requests(&Ok(ContactAction::PeerRefused)),
        vec![done.clone_request(), toast("Peer refused to save contact", Severity::Warn)]
    );
    assert_eq!(
        finished_requests(&Err(TransferError::Cancel)),
        vec![toast("The transfer was cancelled", Severity::Warn)]
    );
    assert_eq!(
        finished_requests(&Err(TransferError::NoServer)),
        vec![toast("Could not connect to server", Severity::Error)]
    );
}

#[test]
fn sender_finished_transfer_requests() {
    assert_eq!(sender_finished_requests(&Ok(ContactAction::NoOp)), vec![]);
    assert_eq!(sender_finished_requests(&Ok(ContactAction::Added)), vec![Request::Contacts]);
    assert_eq!(
        sender_finished_requests(&Ok(ContactAction::PeerRefused)),
        vec![toast("Peer refused to save contact", Severity::Warn)]
    );
    assert_eq!(
        sender_finished_requests(&Err(TransferError::Cancel)),
        vec![toast("The transfer was cancelled", Severity::Error)]
    );
}

trait CloneRequest {
    fn clone_request(&self) -> Request;
}

impl CloneRequest for Request {
    fn clone_request(&self) -> Request {
        match self {
            Request::Contacts => Request::Contacts,
            Request::Toast(t, s) => Request::Toast(t.clone(), *s),
        }
    }
}

#[test]
fn protocol_shows_waiting_only_once_the_passphrase_is_known() {
    let mut book = ContactBook::empty();
    book.add("ana".to_string(), vec![4, 2], 0);
    match begin(&contact(), &book, true) {
        Next::Pair { notice, passphrase, ask_to_save } => {
            assert_eq!(notice, State::Initial);
            assert_eq!(passphrase, vec![4, 2]);
            assert!(ask_to_save);
        }
        _ => panic!("expected pairing to start"),
    }
    match begin(&direct(), &book, false) {
        Next::Pair { passphrase, ask_to_save, .. } => {
            assert_eq!(passphrase, b"uno-dos-tres".to_vec());
            assert!(!ask_to_save);
        }
        _ => panic!("expected pairing to start"),
    }
    let unknown = PassphraseMethod::Contact("leo".to_string());
    assert!(matches!(begin(&unknown, &book, false), Next::Finish(Err(TransferError::NoContact))));
}

#[test]
fn protocol_shows_paired_only_after_pairing() {
    assert!(matches!(after_pairing(Ok(())), Next::Transfer { notice: State::Paired }));
    assert!(matches!(
        after_pairing(Err(PairingError::Hello(HelloError::NoPeer))),
        Next::Finish(Err(TransferError::NoPeer))
    ));
    assert!(matches!(
        after_pairing(Err(PairingError::KeyExchange)),
        Next::Finish(Err(TransferError::PairingFailure))
    ));
}

#[test]
fn protocol_classifies_transfer_failures() {
    assert!(matches!(after_sending(Ok(())), Next::Record));
    assert!(matches!(after_sending(Err(SendError::Subpath)), Next::Finish(Err(TransferError::FilePermission))));
    assert!(matches!(after_receiving(Ok(())), Next::Record));
    assert!(matches!(
        after_receiving(Err(ReceiveError::HashMismatch)),
        Next::Finish(Err(TransferError::HashMismatch))
    ));
}

#[test]
fn protocol_saves_a_recorded_contact() {
    let mut book = ContactBook::empty();
    assert!(matches!(
        after_finalizing(&mut book, None, true, vec![1], 3),
        Next::Finish(Ok(ContactAction::NoOp))
    ));
    assert!(matches!(
        after_finalizing(&mut book, Some("ana".to_string()), false, vec![1], 3),
        Next::Finish(Ok(ContactAction::PeerRefused))
    ));
    assert!(!book.contains("ana"));
    assert!(matches!(
        after_finalizing(&mut book, Some("ana".to_string()), true, vec![1], 3),
        Next::SaveContacts
    ));
    assert_eq!(book.get("ana"), Some(vec![1]));
    assert!(matches!(after_saving(true), Next::Finish(Ok(ContactAction::Added))));
    assert!(matches!(after_saving(false), Next::Finish(Err(TransferError::ContactSaving))));
    assert_eq!(TransferError::ContactSaving.message(), "Could not save the contact");
}
