//! Decisions taken by the terminal client around a transfer or a pairing:
//! whether the contact is saved, whether a contact is deleted, and how
//! many times the password of the contacts database is asked for.

use vstd::prelude::*;
use crate::contacts::{is_deleted, ContactBook};
use crate::passphrase::is_yes;

verus! {

/// What to do about the contact once a transfer has finished.
#[derive(Debug, PartialEq, Eq)]
pub enum SaveDecision {
    /// The user did not ask to save the peer as a contact.
    NotRequested,
    /// The user asked to save the peer under this name, but the peer
    /// refused; the user is warned.
    PeerRefused(String),
    /// The peer is saved under this name with the key of this transfer.
    Save(String),
}

/// The contact is saved only when the user asked for it and the peer
/// accepted.
pub fn save_decision(save: Option<String>, peer_accepted: bool) -> (r: SaveDecision)
    ensures
        match save {
            None => r is NotRequested,
            Some(name) => if peer_accepted {
                r matches SaveDecision::Save(n) && n@ == name@
            } else {
                r matches SaveDecision::PeerRefused(n) && n@ == name@
            },
        },
{
    match save {
        None => SaveDecision::NotRequested,
        Some(name) => if peer_accepted {
            SaveDecision::Save(name)
        } else {
            SaveDecision::PeerRefused(name)
        },
    }
}

/// Why a command of the terminal client failed.
#[derive(Debug, PartialEq, Eq)]
pub enum CommandError {
    /// The peer refused to be saved as a contact during a pairing.
    PeerRefusedContact,
    /// Three passwords were wrong, or three pairs of passwords differed.
    TooManyPasswordAttempts,
    /// The contacts database could not be opened.
    ContactsUnavailable,
    /// No folder to receive into was given and no default one was found.
    NoDestination,
}

pub open spec fn command_error_text(e: CommandError) -> Seq<char> {
    match e {
        CommandError::PeerRefusedContact => "Peer refused to save contact"@,
        CommandError::TooManyPasswordAttempts => "3 incorrect password attempts"@,
        CommandError::ContactsUnavailable => "Could not find or create contacts file"@,
        CommandError::NoDestination => "Could not find destination directory"@,
    }
}

impl CommandError {
    /// The sentence reported to the user.
    pub fn message(&self) -> (r: &'static str)
        ensures
            r@ == command_error_text(*self),
    {
        match self {
            CommandError::PeerRefusedContact => "Peer refused to save contact",
            CommandError::TooManyPasswordAttempts => "3 incorrect password attempts",
            CommandError::ContactsUnavailable => "Could not find or create contacts file",
            CommandError::NoDestination => "Could not find destination directory",
        }
    }
}

/// The folder to receive into: the one given, else the default folder to
/// receive into (the downloads folder), else there is none.
pub fn receive_destination<P>(given: Option<P>, default: Option<P>) -> (r: Result<P, CommandError>)
    ensures
        match given {
            Some(g) => r == Ok::<P, CommandError>(g),
            None => match default {
                Some(d) => r == Ok::<P, CommandError>(d),
                None => r == Err::<P, CommandError>(CommandError::NoDestination),
            },
        },
{
    match given {
        Some(g) => Ok(g),
        None => match default {
            Some(d) => Ok(d),
            None => Err(CommandError::NoDestination),
        },
    }
}

/// A pairing made only to save a contact fails when the peer refuses.
pub fn pairing_outcome(peer_accepted: bool) -> (r: Result<(), CommandError>)
    ensures
        peer_accepted <==> r is Ok,
        !peer_accepted ==> r == Err::<(), CommandError>(CommandError::PeerRefusedContact),
{
    if peer_accepted {
        Ok(())
    } else {
        Err(CommandError::PeerRefusedContact)
    }
}

/// What became of a request to delete a contact.
#[derive(Debug, PartialEq, Eq)]
pub enum DeleteOutcome {
    /// The user did not answer "yes"; nothing changed.
    Canceled,
    /// The contact was deleted; the book must be saved.
    Deleted,
    /// No contact has that name; nothing changed.
    NotFound,
}

/// Deletes the contact `name` when the user's answer to the confirmation
/// prompt is `y` or `Y`.
pub fn delete_contact(book: &mut ContactBook, name: &str, answer: u8) -> (r: DeleteOutcome)
    ensures
        !is_yes_spec(answer) ==> r is Canceled && *final(book) == *old(book),
        is_yes_spec(answer) ==> is_deleted(old(book), final(book), name@) && (r is Deleted
            <==> old(book).entry(name@) is Some) && (r is NotFound <==> old(book).entry(
            name@,
        ) is None),
{
    if is_yes(answer) {
        if book.delete(name) {
            DeleteOutcome::Deleted
        } else {
            DeleteOutcome::NotFound
        }
    } else {
        DeleteOutcome::Canceled
    }
}

pub open spec fn is_yes_spec(answer: u8) -> bool {
    answer == 0x79u8 || answer == 0x59u8
}

/// The number of tries the user gets at the contacts password.
pub const PASSWORD_ATTEMPTS: u8 = 3;

/// The result of trying to open the contacts database with a password.
#[derive(Debug, Clone, Copy, PartialEq, Eq)]
pub enum OpenOutcome {
    Opened,
    /// The password did not decrypt the database.
    WrongPassword,
    /// Any other failure.
    Failed,
}

/// What to do after a password was tried.
#[derive(Debug, PartialEq, Eq)]
pub enum PasswordStep {
    /// The database is open (or the new password is agreed on).
    Done,
    /// Ask again.
    TryAgain,
    /// Stop with this error.
    GiveUp(CommandError),
}

/// Counts the password prompts of one opening or creation of the contacts
/// database.
pub struct PasswordRounds {
    used: u8,
}

impl PasswordRounds {
    /// The number of prompts so far.
    pub closed spec fn used(&self) -> nat {
        self.used as nat
    }

    #[verifier::type_invariant]
    spec fn wf(self) -> bool {
        self.used <= PASSWORD_ATTEMPTS
    }

    /// Before the first prompt.
    pub fn new() -> (r: Self)
        ensures
            r.used() == 0,
    {
        PasswordRounds { used: 0 }
    }

    /// After a password was tried on the existing database: a wrong
    /// password is asked again until three were wrong; any other failure
    /// stops at once. Once the three prompts are used up, nothing more is
    /// counted and the answer is to give up.
    pub fn after_open(&mut self, outcome: OpenOutcome) -> (r: PasswordStep)
        ensures
            old(self).used() >= PASSWORD_ATTEMPTS ==> *final(self) == *old(self) && r
                == PasswordStep::GiveUp(CommandError::TooManyPasswordAttempts),
            old(self).used() < PASSWORD_ATTEMPTS ==> final(self).used() == old(self).used() + 1
                && match outcome {
                OpenOutcome::Opened => r is Done,
                OpenOutcome::Failed => r == PasswordStep::GiveUp(CommandError::ContactsUnavailable),
                OpenOutcome::WrongPassword => if final(self).used() < PASSWORD_ATTEMPTS {
                    r is TryAgain
                } else {
                    r == PasswordStep::GiveUp(CommandError::TooManyPasswordAttempts)
                },
            },
    {
        if self.used >= PASSWORD_ATTEMPTS {
            return PasswordStep::GiveUp(CommandError::TooManyPasswordAttempts);
        }
        self.used = self.used + 1;
        match outcome {
            OpenOutcome::Opened => PasswordStep::Done,
            OpenOutcome::Failed => PasswordStep::GiveUp(CommandError::ContactsUnavailable),
            OpenOutcome::WrongPassword => if self.used < PASSWORD_ATTEMPTS {
                PasswordStep::TryAgain
            } else {
                PasswordStep::GiveUp(CommandError::TooManyPasswordAttempts)
            },
        }
    }

    /// After a new password was typed twice to create the database: the
    /// two must agree, and they are asked again until three pairs differed.
    /// Once the three prompts are used up, nothing more is counted and the
    /// answer is to give up.
    pub fn after_new_password(&mut self, first: &String, second: &String) -> (r: PasswordStep)
        ensures
            old(self).used() >= PASSWORD_ATTEMPTS ==> *final(self) == *old(self) && r
                == PasswordStep::GiveUp(CommandError::TooManyPasswordAttempts),
            old(self).used() < PASSWORD_ATTEMPTS ==> final(self).used() == old(self).used() + 1 && (
            first@ == second@ ==> r is Done) && (first@ != second@ ==> if final(self).used()
                < PASSWORD_ATTEMPTS {
                r is TryAgain
            } else {
                r == PasswordStep::GiveUp(CommandError::TooManyPasswordAttempts)
            }),
    {
        if self.used >= PASSWORD_ATTEMPTS {
            return PasswordStep::GiveUp(CommandError::TooManyPasswordAttempts);
        }
        self.used = self.used + 1;
        if *first == *second {
            PasswordStep::Done
        } else if self.used < PASSWORD_ATTEMPTS {
            PasswordStep::TryAgain
        } else {
            PasswordStep::GiveUp(CommandError::TooManyPasswordAttempts)
        }
    }
}

} // verus!
