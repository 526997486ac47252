use aporture_client::commands::{
    delete_contact, pairing_outcome, receive_destination, save_decision, CommandError, DeleteOutcome, OpenOutcome,
    PasswordRounds, PasswordStep, SaveDecision, PASSWORD_ATTEMPTS,
};
use aporture_client::contacts::ContactBook;

#[test]
fn contact_saved_only_when_asked_and_accepted() {
    assert_eq!(save_decision(None, true), SaveDecision::NotRequested);
    assert_eq!(save_decision(None, false), SaveDecision::NotRequested);
    assert_eq!(save_decision(Some("a".to_string()), true), SaveDecision::Save("a".to_string()));
    assert_eq!(
        save_decision(Some("a".to_string()), false),
        SaveDecision::PeerRefused("a".to_string())
    );
}

#[test]
fn pairing_fails_when_peer_refuses() {
    assert_eq!(pairing_outcome(true), Ok(()));
    let e = pairing_outcome(false).unwrap_err();
    assert_eq!(e, CommandError::PeerRefusedContact);
    assert_eq!(e.message(), "Peer refused to save contact");
}

#[test]
fn command_error_messages() {
    assert_eq!(CommandError::TooManyPasswordAttempts.message(), "3 incorrect password attempts");
    assert_eq!(
        CommandError::ContactsUnavailable.message(),
        "Could not find or create contacts file"
    );
}

#[test]
fn delete_needs_a_yes() {
    let mut book = ContactBook::empty();
    book.add("alice".to_string(), vec![1], 1);
    assert_eq!(delete_contact(&mut book, "alice", b'n'), DeleteOutcome::Canceled);
    assert!(book.contains("alice"));
    assert_eq!(delete_contact(&mut book, "alice", b'Y'), DeleteOutcome::Deleted);
    assert!(!book.contains("alice"));
    assert_eq!(delete_contact(&mut book, "alice", b'y'), DeleteOutcome::NotFound);
}

#[test]
fn three_wrong_passwords_give_up() {
    assert_eq!(PASSWORD_ATTEMPTS, 3);
    let mut rounds = PasswordRounds::new();
    assert_eq!(rounds.after_open(OpenOutcome::WrongPassword), PasswordStep::TryAgain);
    assert_eq!(rounds.after_open(OpenOutcome::WrongPassword), PasswordStep::TryAgain);
    assert_eq!(
        rounds.after_open(OpenOutcome::WrongPassword),
        PasswordStep::GiveUp(CommandError::TooManyPasswordAttempts)
    );
}

#[test]
fn right_password_opens() {
    let mut rounds = PasswordRounds::new();
    assert_eq!(rounds.after_open(OpenOutcome::WrongPassword), PasswordStep::TryAgain);
    assert_eq!(rounds.after_open(OpenOutcome::Opened), PasswordStep::Done);
}

#[test]
fn other_failure_stops_at_once() {
    let mut rounds = PasswordRounds::new();
    assert_eq!(
        rounds.after_open(OpenOutcome::Failed),
        PasswordStep::GiveUp(CommandError::ContactsUnavailable)
    );
}

#[test]
fn new_passwords_must_agree() {
    let mut rounds = PasswordRounds::new();
    let a = "one".to_string();
    let b = "two".to_string();
    assert_eq!(rounds.after_new_password(&a, &b), PasswordStep::TryAgain);
    assert_eq!(rounds.after_new_password(&a, &a), PasswordStep::Done);
    let mut rounds = PasswordRounds::new();
    assert_eq!(rounds.after_new_password(&a, &b), PasswordStep::TryAgain);
    assert_eq!(rounds.after_new_password(&a, &b), PasswordStep::TryAgain);
    assert_eq!(
        rounds.after_new_password(&a, &b),
        PasswordStep::GiveUp(CommandError::TooManyPasswordAttempts)
    );
}

#[test]
fn destination_given_else_default_else_error() {
    assert_eq!(receive_destination(Some("/a"), Some("/dl")), Ok("/a"));
    assert_eq!(receive_destination(None, Some("/dl")), Ok("/dl"));
    let e = receive_destination::<&str>(None, None).unwrap_err();
    assert_eq!(e, CommandError::NoDestination);
    assert_eq!(e.message(), "Could not find destination directory");
}

#[test]
fn no_prompt_is_counted_after_the_last() {
    let mut rounds = PasswordRounds::new();
    for _ in 0..PASSWORD_ATTEMPTS {
        rounds.after_open(OpenOutcome::WrongPassword);
    }
    assert_eq!(
        rounds.after_open(OpenOutcome::Opened),
        PasswordStep::GiveUp(CommandError::TooManyPasswordAttempts)
    );
    let mut rounds = PasswordRounds::new();
    for _ in 0..PASSWORD_ATTEMPTS {
        rounds.after_new_password(&"a".to_string(), &"b".to_string());
    }
    assert_eq!(
        rounds.after_new_password(&"a".to_string(), &"a".to_string()),
        PasswordStep::GiveUp(CommandError::TooManyPasswordAttempts)
    );
}
