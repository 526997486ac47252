//! The transfer dialog of the graphical client: how a transfer gets its
//! passphrase, what becomes of the contact, the title and progress it
//! shows, and how its failures are reported.

use vstd::prelude::*;
use vstd::utf8::{decode_utf8, valid_utf8};
use crate::contacts::{is_added, ContactBook};
use crate::errors::{
    peer_error_of_pairing, peer_error_of_receive, peer_error_of_send, HelloError, PairingError,
    PeerError, ReceiveError, SendError,
};
use crate::passphrase::contact_passphrase;
use crate::progress::{bar_step, BarAction, ChannelMessage};
use crate::toaster::Icon;

verus! {

/// Why a transfer started from the transfer dialog did not complete.
#[derive(Debug, Clone, Copy, PartialEq, Eq, Structural)]
pub enum Error {
    NoPeer,
    NoServer,
    InvalidServer,
    ServerFailure,
    PairingFailure,
    FileNotFound,
    FilePermission,
    HashMismatch,
    TransferFailure,
    NoContact,
    ContactSaving,
    Cancel,
}

pub open spec fn error_of_pairing(e: PairingError) -> Error {
    match e {
        PairingError::Hello(h) => match h {
            HelloError::NoServer => Error::NoServer,
            HelloError::NoPeer => Error::NoPeer,
            HelloError::ServerUnsupportedVersion | HelloError::ClientError => {
                Error::InvalidServer
            },
            HelloError::ServerError => Error::ServerFailure,
        },
        _ => Error::PairingFailure,
    }
}

pub open spec fn error_of_receive(e: ReceiveError) -> Error {
    match e {
        ReceiveError::File | ReceiveError::Destination => Error::FileNotFound,
        ReceiveError::Network | ReceiveError::Cipher => Error::TransferFailure,
        ReceiveError::HashMismatch => Error::HashMismatch,
    }
}

pub open spec fn error_of_send(e: SendError) -> Error {
    match e {
        SendError::File | SendError::Path => Error::FileNotFound,
        SendError::Subpath => Error::FilePermission,
        SendError::Network => Error::TransferFailure,
        SendError::HashMismatch => Error::HashMismatch,
    }
}

impl From<PairingError> for Error {
    fn from(e: PairingError) -> (r: Self) {
        match e {
            PairingError::Hello(h) => match h {
                HelloError::NoServer => Error::NoServer,
                HelloError::NoPeer => Error::NoPeer,
                HelloError::ServerUnsupportedVersion | HelloError::ClientError => {
                    Error::InvalidServer
                },
                HelloError::ServerError => Error::ServerFailure,
            },
            PairingError::KeyExchange | PairingError::Negotiation
            | PairingError::AddressExchange => Error::PairingFailure,
        }
    }
}

impl vstd::std_specs::convert::FromSpecImpl<PairingError> for Error {
    open spec fn obeys_from_spec() -> bool {
        true
    }

    open spec fn from_spec(e: PairingError) -> Self {
        error_of_pairing(e)
    }
}

impl From<ReceiveError> for Error {
    fn from(e: ReceiveError) -> (r: Self) {
        match e {
            ReceiveError::File | ReceiveError::Destination => Error::FileNotFound,
            ReceiveError::Network | ReceiveError::Cipher => Error::TransferFailure,
            ReceiveError::HashMismatch => Error::HashMismatch,
        }
    }
}

impl vstd::std_specs::convert::FromSpecImpl<ReceiveError> for Error {
    open spec fn obeys_from_spec() -> bool {
        true
    }

    open spec fn from_spec(e: ReceiveError) -> Self {
        error_of_receive(e)
    }
}

impl From<SendError> for Error {
    fn from(e: SendError) -> (r: Self) {
        match e {
            SendError::File | SendError::Path => Error::FileNotFound,
            SendError::Subpath => Error::FilePermission,
            SendError::Network => Error::TransferFailure,
            SendError::HashMismatch => Error::HashMismatch,
        }
    }
}

impl vstd::std_specs::convert::FromSpecImpl<SendError> for Error {
    open spec fn obeys_from_spec() -> bool {
        true
    }

    open spec fn from_spec(e: SendError) -> Self {
        error_of_send(e)
    }
}

/// The sentence shown to the user for each transfer failure.
pub open spec fn error_text(e: Error) -> Seq<char> {
    match e {
        Error::NoPeer => "The peer sending the file has not arrived yet"@,
        Error::NoServer => "Could not connect to server"@,
        Error::InvalidServer => "The server is malfunctioning, please try again later"@,
        Error::ServerFailure => "The server is malfunctioning, please try again later"@,
        Error::PairingFailure => "Could not perform pairing with peer"@,
        Error::FileNotFound => "The file selected is invalid"@,
        Error::FilePermission => "You do not have access to the file you are trying to send"@,
        Error::HashMismatch => "There was a problem in the transfered file"@,
        Error::TransferFailure => "Could not transfer file"@,
        Error::NoContact => "Contact not found"@,
        Error::ContactSaving => "Could not save the contact"@,
        Error::Cancel => "The transfer was cancelled"@,
    }
}

impl Error {
    /// The user-facing description of this failure.
    pub fn message(&self) -> (r: &'static str)
        ensures
            r@ == error_text(*self),
    {
        match self {
            Error::NoPeer => "The peer sending the file has not arrived yet",
            Error::NoServer => "Could not connect to server",
            Error::InvalidServer => "The server is malfunctioning, please try again later",
            Error::ServerFailure => "The server is malfunctioning, please try again later",
            Error::PairingFailure => "Could not perform pairing with peer",
            Error::FileNotFound => "The file selected is invalid",
            Error::FilePermission => "You do not have access to the file you are trying to send",
            Error::HashMismatch => "There was a problem in the transfered file",
            Error::TransferFailure => "Could not transfer file",
            Error::NoContact => "Contact not found",
            Error::ContactSaving => "Could not save the contact",
            Error::Cancel => "The transfer was cancelled",
        }
    }
}

/// How the passphrase of a transfer is obtained.
pub enum PassphraseMethod {
    /// The bytes of a passphrase typed or generated in the form.
    Direct(Vec<u8>),
    /// The key saved for the named contact.
    Contact(String),
}

/// What became of the contact at the end of a transfer.
#[derive(Debug, Clone, Copy, PartialEq, Eq, Structural)]
pub enum ContactAction {
    /// No contact was to be saved.
    NoOp,
    /// The peer was saved as a contact.
    Added,
    /// The peer refused to be saved.
    PeerRefused,
}

/// The passphrase bytes the pairing starts with; a contact that is not
/// saved is an error.
pub fn resolve_passphrase(method: &PassphraseMethod, book: &ContactBook) -> (r: Result<
    Vec<u8>,
    Error,
>)
    ensures
        match method {
            PassphraseMethod::Direct(p) => r matches Ok(b) && b@ == p@,
            PassphraseMethod::Contact(name) => match contact_passphrase(book, name@) {
                Some(k) => r matches Ok(b) && b@ == k,
                None => r == Err::<Vec<u8>, Error>(Error::NoContact),
            },
        },
{
    match method {
        PassphraseMethod::Direct(p) => Ok(vstd::slice::slice_to_vec(p.as_slice())),
        PassphraseMethod::Contact(name) => match book.get(name.as_str()) {
            Some(key) => Ok(key),
            None => Err(Error::NoContact),
        },
    }
}

/// After the transfer: when a contact name was given and the peer
/// accepted, the peer is added under that name with the agreed key to the
/// contacts in memory; writing them out is left to the caller (see
/// [`after_finalizing`] and [`after_saving`]).
pub fn record_contact(
    book: &mut ContactBook,
    save: Option<String>,
    peer_accepted: bool,
    key: Vec<u8>,
    added: i64,
) -> (r: ContactAction)
    ensures
        match save {
            None => r is NoOp && *final(book) == *old(book),
            Some(name) => if peer_accepted {
                r is Added && is_added(old(book), final(book), name@, key@, added)
            } else {
                r is PeerRefused && *final(book) == *old(book)
            },
        },
{
    match save {
        None => ContactAction::NoOp,
        Some(name) => if peer_accepted {
            book.add(name, key, added);
            ContactAction::Added
        } else {
            ContactAction::PeerRefused
        },
    }
}

/// `String::from_utf8` of std: the text whose UTF-8 encoding is `bytes`,
/// or nothing when `bytes` is not valid UTF-8. Claimed: a text is returned
/// exactly for valid UTF-8, and it is the decoding of `bytes`.
#[verifier::external_body]
fn string_from_utf8(bytes: Vec<u8>) -> (r: Option<String>)
    ensures
        r is Some <==> valid_utf8(bytes@),
        r matches Some(s) ==> s@ == decode_utf8(bytes@),
{
    String::from_utf8(bytes).ok()
}

pub open spec fn title_text(send: bool, contact: bool, subject: Seq<char>) -> Seq<char> {
    if send {
        if contact {
            "Sending file to contact\n"@ + subject
        } else {
            "Sending file with passphrase:\n"@ + subject
        }
    } else {
        if contact {
            "Receiving file from contact\n"@ + subject
        } else {
            "Receiving file with passphrase:\n"@ + subject
        }
    }
}

/// What a transfer is started with: how to get the passphrase, the file
/// to send or the folder to receive into (`P` is a file-system path), and,
/// when the peer is to be saved, the name to save it under with the
/// contacts it goes into (`C` is a handle to the contacts).
pub struct Params<P, C> {
    pub passphrase: PassphraseMethod,
    pub path: P,
    pub save: Option<(String, C)>,
}

impl<P, C> Params<P, C> {
    pub fn new(passphrase: PassphraseMethod, path: P, save: Option<(String, C)>) -> (r: Self)
        ensures
            r == (Params { passphrase, path, save }),
    {
        Params { passphrase, path, save }
    }
}

/// A transfer to start: sending or receiving.
pub enum TransferType<P, C> {
    Send(Params<P, C>),
    Receive(Params<P, C>),
}

impl<P, C> TransferType<P, C> {
    pub open spec fn params(&self) -> Params<P, C> {
        match self {
            TransferType::Send(p) => *p,
            TransferType::Receive(p) => *p,
        }
    }

    /// The icon shown by the transfer dialog.
    pub fn icon(&self) -> (r: Icon)
        ensures
            r == match self {
                TransferType::Send(_) => Icon::Send,
                TransferType::Receive(_) => Icon::Inbox,
            },
    {
        match self {
            TransferType::Send(_) => Icon::Send,
            TransferType::Receive(_) => Icon::Inbox,
        }
    }

    /// The title of the transfer dialog: the passphrase, or the contact, it
    /// pairs with. A typed passphrase is valid UTF-8, as it comes from the
    /// form.
    pub fn title(&self) -> (r: String)
        requires
            self.params().passphrase matches PassphraseMethod::Direct(p) ==> valid_utf8(p@),
        ensures
            match self.params().passphrase {
                PassphraseMethod::Direct(p) => r@ == title_text(self is Send, false, decode_utf8(p@)),
                PassphraseMethod::Contact(c) => r@ == title_text(self is Send, true, c@),
            },
    {
        let (send, params) = match self {
            TransferType::Send(p) => (true, p),
            TransferType::Receive(p) => (false, p),
        };
        let (contact, subject) = match &params.passphrase {
            PassphraseMethod::Direct(p) => {
                let bytes = vstd::slice::slice_to_vec(p.as_slice());
                match string_from_utf8(bytes) {
                    Some(s) => (false, s),
                    None => {
                        proof {
                            assert(false);
                        }
                        (false, String::new())
                    },
                }
            },
            PassphraseMethod::Contact(c) => (true, c.clone()),
        };
        let mut r = if send {
            if contact {
                String::from_str("Sending file to contact\n")
            } else {
                String::from_str("Sending file with passphrase:\n")
            }
        } else {
            if contact {
                String::from_str("Receiving file from contact\n")
            } else {
                String::from_str("Receiving file with passphrase:\n")
            }
        };
        r.append(subject.as_str());
        r
    }
}

/// The stage of a transfer shown by the transfer dialog.
#[derive(Debug, Clone, Copy, PartialEq, Eq, Structural)]
pub enum State {
    Initial,
    Paired,
    Compress,
    /// Sending this many bytes.
    Sending(usize),
    Uncompress,
    Final,
}

/// An input of the transfer dialog.
#[derive(Debug, Clone, Copy, PartialEq, Eq, Structural)]
pub enum Msg {
    /// Time to move the busy indicator.
    Pulse,
    /// The user pressed "Cancel".
    Cancel,
    /// The transfer reached a new stage.
    UpdateState(State),
    /// This many more bytes were transferred.
    Progress(usize),
}

/// The dialog input that a progress message of the protocol stands for.
pub open spec fn dialog_input(message: ChannelMessage) -> Msg {
    match message {
        ChannelMessage::Compression => Msg::UpdateState(State::Compress),
        ChannelMessage::ProgressSize(total) => Msg::UpdateState(State::Sending(total)),
        ChannelMessage::Uncompressing => Msg::UpdateState(State::Uncompress),
        ChannelMessage::Finished => Msg::UpdateState(State::Final),
        ChannelMessage::Progress(n) => Msg::Progress(n),
    }
}

/// The dialog input that a progress message of the protocol becomes: see
/// [`dialog_input`].
pub fn msg_for(message: ChannelMessage) -> (r: Msg)
    ensures
        r == dialog_input(message),
{
    match message {
        ChannelMessage::Compression => Msg::UpdateState(State::Compress),
        ChannelMessage::ProgressSize(total) => Msg::UpdateState(
            State::Sending(total),
        ),
        ChannelMessage::Uncompressing => Msg::UpdateState(State::Uncompress),
        ChannelMessage::Finished => Msg::UpdateState(State::Final),
        ChannelMessage::Progress(n) => Msg::Progress(n),
    }
}

/// The text under the progress bar of the transfer dialog.
#[derive(Debug, Clone, Copy, PartialEq, Eq, Structural)]
pub enum StatusText {
    /// Nothing yet.
    Empty,
    Waiting,
    Paired,
    Compressing,
    /// "0%", right when the size of the transfer is known.
    Started,
    /// The share transferred so far, as a percentage with two decimals.
    Percent,
    Uncompressing,
    Finished,
}

pub open spec fn status_text(t: StatusText) -> Seq<char> {
    match t {
        StatusText::Empty => ""@,
        StatusText::Waiting => "Waiting for peer..."@,
        StatusText::Paired => "Pairing complete!"@,
        StatusText::Compressing => "Compressing files before transfer..."@,
        StatusText::Started => "0%"@,
        StatusText::Percent => "%"@,
        StatusText::Uncompressing => "Uncompressing files..."@,
        StatusText::Finished => "Finished Transfer"@,
    }
}

impl StatusText {
    /// The fixed text; for [`StatusText::Percent`] only the sign that
    /// follows the number.
    pub fn text(&self) -> (r: &'static str)
        ensures
            r@ == status_text(*self),
    {
        match self {
            StatusText::Empty => "",
            StatusText::Waiting => "Waiting for peer...",
            StatusText::Paired => "Pairing complete!",
            StatusText::Compressing => "Compressing files before transfer...",
            StatusText::Started => "0%",
            StatusText::Percent => "%",
            StatusText::Uncompressing => "Uncompressing files...",
            StatusText::Finished => "Finished Transfer",
        }
    }
}

/// What happens to the task that moves the busy indicator.
#[derive(Debug, Clone, Copy, PartialEq, Eq, Structural)]
pub enum PulserChange {
    Keep,
    /// A new task is started (and held in place of any earlier one).
    Start,
    /// The held task, if any, is stopped.
    Stop,
}

/// What the transfer dialog does in answer to an input.
#[derive(Debug, Clone, Copy, PartialEq, Eq, Structural)]
pub struct Effects {
    /// Empty the progress bar.
    pub reset_fraction: bool,
    pub pulser: PulserChange,
    /// Feed the dialog a progress of zero bytes.
    pub request_zero_progress: bool,
    /// Fill the bar to `current / total`.
    pub show_fraction: bool,
    /// Move the busy indicator one step.
    pub pulse: bool,
    /// Close the dialog and report that the transfer was cancelled.
    pub cancel: bool,
}

pub open spec fn effects(
    reset_fraction: bool,
    pulser: PulserChange,
    request_zero_progress: bool,
    show_fraction: bool,
    pulse: bool,
    cancel: bool,
) -> Effects {
    Effects { reset_fraction, pulser, request_zero_progress, show_fraction, pulse, cancel }
}

/// The state of the transfer dialog.
pub struct Peer {
    pub total: usize,
    pub current: usize,
    pub pulsing: bool,
    pub status: StatusText,
}

/// How the transfer dialog answers an input: a new stage sets the text
/// (waiting and uncompressing also empty the bar and start the busy
/// indicator); the size of the transfer restarts the count, stops the busy
/// indicator and feeds a zero progress; progress adds to the count and
/// shows the filled share; cancelling stops the busy indicator and reports
/// the cancellation.
pub open spec fn next_peer(d: Peer, input: Msg) -> (Peer, Effects) {
    let quiet = effects(false, PulserChange::Keep, false, false, false, false);
    match input {
        Msg::UpdateState(State::Initial) => (
            Peer { pulsing: true, status: StatusText::Waiting, ..d },
            effects(true, PulserChange::Start, false, false, false, false),
        ),
        Msg::UpdateState(State::Paired) => (
            Peer { status: StatusText::Paired, ..d },
            quiet,
        ),
        Msg::UpdateState(State::Compress) => (
            Peer { status: StatusText::Compressing, ..d },
            quiet,
        ),
        Msg::UpdateState(State::Sending(total)) => (
            Peer { total, current: 0, pulsing: false, status: StatusText::Started },
            effects(false, PulserChange::Stop, true, false, false, false),
        ),
        Msg::UpdateState(State::Uncompress) => (
            Peer { pulsing: true, status: StatusText::Uncompressing, ..d },
            effects(true, PulserChange::Start, false, false, false, false),
        ),
        Msg::UpdateState(State::Final) => (
            Peer { pulsing: false, status: StatusText::Finished, ..d },
            effects(false, PulserChange::Stop, false, false, false, false),
        ),
        Msg::Pulse => (d, effects(false, PulserChange::Keep, false, false, true, false)),
        Msg::Progress(n) => (
            Peer {
                current: (d.current + n) as usize,
                status: StatusText::Percent,
                ..d
            },
            effects(false, PulserChange::Keep, false, true, false, false),
        ),
        Msg::Cancel => (
            Peer { pulsing: false, ..d },
            effects(false, PulserChange::Stop, false, false, false, true),
        ),
    }
}

impl Peer {
    /// The dialog as it opens.
    pub fn new() -> (r: Self)
        ensures
            r.total == 0,
            r.current == 0,
            !r.pulsing,
            r.status == StatusText::Empty,
    {
        Peer { total: 0, current: 0, pulsing: false, status: StatusText::Empty }
    }

    /// Answers one input: see [`next_peer`].
    pub fn step(&mut self, input: Msg) -> (r: Effects)
        requires
            input matches Msg::Progress(n) ==> old(self).current + n <= usize::MAX,
        ensures
            (*final(self), r) == next_peer(*old(self), input),
    {
        let none = Effects {
            reset_fraction: false,
            pulser: PulserChange::Keep,
            request_zero_progress: false,
            show_fraction: false,
            pulse: false,
            cancel: false,
        };
        match input {
            Msg::UpdateState(state) => match state {
                State::Initial => {
                    self.pulsing = true;
                    self.status = StatusText::Waiting;
                    Effects { reset_fraction: true, pulser: PulserChange::Start, ..none }
                },
                State::Paired => {
                    self.status = StatusText::Paired;
                    none
                },
                State::Compress => {
                    self.status = StatusText::Compressing;
                    none
                },
                State::Sending(total) => {
                    self.total = total;
                    self.current = 0;
                    self.pulsing = false;
                    self.status = StatusText::Started;
                    Effects {
                        pulser: PulserChange::Stop,
                        request_zero_progress: true,
                        ..none
                    }
                },
                State::Uncompress => {
                    self.pulsing = true;
                    self.status = StatusText::Uncompressing;
                    Effects { reset_fraction: true, pulser: PulserChange::Start, ..none }
                },
                State::Final => {
                    self.pulsing = false;
                    self.status = StatusText::Finished;
                    Effects { pulser: PulserChange::Stop, ..none }
                },
            },
            Msg::Pulse => Effects { pulse: true, ..none },
            Msg::Progress(n) => {
                self.current = self.current + n;
                self.status = StatusText::Percent;
                Effects { show_fraction: true, ..none }
            },
            Msg::Cancel => {
                self.pulsing = false;
                Effects { pulser: PulserChange::Stop, cancel: true, ..none }
            },
        }
    }

    /// The protocol finished (with success or failure): the busy indicator
    /// stops and the dialog closes.
    pub fn finish(&mut self) -> (r: PulserChange)
        ensures
            r is Stop,
            *final(self) == (Peer { pulsing: false, ..*old(self) }),
    {
        self.pulsing = false;
        PulserChange::Stop
    }
}

/// What the transfer protocol does next.
pub enum Next {
    /// Show the stage `notice`, then pair with the peer using these
    /// passphrase bytes, asking the peer to be saved as a contact when
    /// `ask_to_save`.
    Pair { notice: State, passphrase: Vec<u8>, ask_to_save: bool },
    /// Show the stage `notice`, then transfer the file.
    Transfer { notice: State },
    /// Finish the pairing and record the contact.
    Record,
    /// Save the contacts, which now hold the peer.
    SaveContacts,
    /// End with this result.
    Finish(Result<ContactAction, Error>),
}

/// The start of a transfer: the passphrase is resolved before anything is
/// shown; only then is the dialog told that the peer is awaited. The peer
/// is asked to be saved when a contact name to save it under was given
/// (`save_requested`).
pub fn begin(method: &PassphraseMethod, book: &ContactBook, save_requested: bool) -> (r: Next)
    ensures
        match method {
            PassphraseMethod::Direct(p) => r matches Next::Pair { notice, passphrase, ask_to_save }
                && notice == State::Initial && passphrase@ == p@ && ask_to_save == save_requested,
            PassphraseMethod::Contact(name) => match contact_passphrase(book, name@) {
                Some(k) => r matches Next::Pair { notice, passphrase, ask_to_save } && notice
                    == State::Initial && passphrase@ == k && ask_to_save == save_requested,
                None => r matches Next::Finish(Err(e)) && e == Error::NoContact,
            },
        },
{
    match resolve_passphrase(method, book) {
        Ok(passphrase) => Next::Pair { notice: State::Initial, passphrase, ask_to_save: save_requested },
        Err(e) => Next::Finish(Err(e)),
    }
}

/// After pairing: "paired" is shown only when the pairing succeeded; a
/// failure ends the transfer with its classification.
pub fn after_pairing(result: Result<(), PairingError>) -> (r: Next)
    ensures
        match result {
            Ok(()) => r matches Next::Transfer { notice } && notice == State::Paired,
            Err(e) => r matches Next::Finish(Err(f)) && f == error_of_pairing(e),
        },
{
    match result {
        Ok(()) => Next::Transfer { notice: State::Paired },
        Err(e) => Next::Finish(Err(Error::from(e))),
    }
}

/// After sending the file: a failure ends the transfer with its
/// classification; otherwise the contact is recorded.
pub fn after_sending(result: Result<(), SendError>) -> (r: Next)
    ensures
        match result {
            Ok(()) => r is Record,
            Err(e) => r matches Next::Finish(Err(f)) && f == error_of_send(e),
        },
{
    match result {
        Ok(()) => Next::Record,
        Err(e) => Next::Finish(Err(Error::from(e))),
    }
}

/// After receiving the file: a failure ends the transfer with its
/// classification; otherwise the contact is recorded.
pub fn after_receiving(result: Result<(), ReceiveError>) -> (r: Next)
    ensures
        match result {
            Ok(()) => r is Record,
            Err(e) => r matches Next::Finish(Err(f)) && f == error_of_receive(e),
        },
{
    match result {
        Ok(()) => Next::Record,
        Err(e) => Next::Finish(Err(Error::from(e))),
    }
}

/// After the pairing was finished with the agreed `key`: the peer is
/// recorded as [`record_contact`] says; a recorded peer must then be saved,
/// otherwise the transfer ends with what became of the contact.
pub fn after_finalizing(
    book: &mut ContactBook,
    save: Option<String>,
    peer_accepted: bool,
    key: Vec<u8>,
    added: i64,
) -> (r: Next)
    ensures
        match save {
            None => r == Next::Finish(Ok(ContactAction::NoOp)) && *final(book) == *old(book),
            Some(name) => if peer_accepted {
                r is SaveContacts && is_added(old(book), final(book), name@, key@, added)
            } else {
                r == Next::Finish(Ok(ContactAction::PeerRefused)) && *final(book) == *old(book)
            },
        },
{
    match record_contact(book, save, peer_accepted, key, added) {
        ContactAction::Added => Next::SaveContacts,
        action => Next::Finish(Ok(action)),
    }
}

/// After saving the contacts that hold the new peer: the transfer ends as
/// "added", or with [`Error::ContactSaving`] when they could not be saved.
pub fn after_saving(saved: bool) -> (r: Next)
    ensures
        saved ==> r == Next::Finish(Ok(ContactAction::Added)),
        !saved ==> r == Next::Finish(Err(Error::ContactSaving)),
{
    if saved {
        Next::Finish(Ok(ContactAction::Added))
    } else {
        Next::Finish(Err(Error::ContactSaving))
    }
}

/// Once the size of a transfer is known, the count of transferred bytes is
/// the sum of the progress reported since, and the total is that size.
pub proof fn law_progress_counts_from_size(d: Peer, total: usize, a: usize, b: usize)
    requires
        a + b <= usize::MAX,
    ensures
        ({
            let d1 = next_peer(d, Msg::UpdateState(State::Sending(total))).0;
            let d2 = next_peer(d1, Msg::Progress(a)).0;
            let d3 = next_peer(d2, Msg::Progress(b)).0;
            d3.current == a + b && d3.total == total && !d3.pulsing
        }),
{
}

/// Whatever the dialog was doing, cancelling, the end of the transfer and
/// the start of the byte count leave no busy-indicator task held.
pub proof fn law_busy_indicator_stopped(d: Peer, total: usize)
    ensures
        !next_peer(d, Msg::Cancel).0.pulsing,
        next_peer(d, Msg::Cancel).1.pulser is Stop,
        !next_peer(d, Msg::UpdateState(State::Final)).0.pulsing,
        !next_peer(d, Msg::UpdateState(State::Sending(total))).0.pulsing,
{
}

/// A later transfer with a contact saved at the end of an earlier one
/// pairs with the key that the earlier transfer agreed on.
pub proof fn law_recorded_contact_pairs_with_its_key(
    before: &ContactBook,
    after: &ContactBook,
    name: Seq<char>,
    key: Seq<u8>,
    added: i64,
)
    requires
        is_added(before, after, name, key, added),
    ensures
        contact_passphrase(after, name) == Some(key),
{
    assert(after.entry(name) == Some((key, added)));
}

/// Each stage the dialog is told of shows the text that names that stage,
/// whatever the dialog showed before; compressing and uncompressing are
/// told apart.
pub proof fn law_stage_text_names_stage(d: Peer, total: usize)
    ensures
        status_text(next_peer(d, Msg::UpdateState(State::Initial)).0.status) == "Waiting for peer..."@,
        status_text(next_peer(d, Msg::UpdateState(State::Paired)).0.status) == "Pairing complete!"@,
        status_text(next_peer(d, Msg::UpdateState(State::Compress)).0.status)
            == "Compressing files before transfer..."@,
        status_text(next_peer(d, Msg::UpdateState(State::Sending(total))).0.status) == "0%"@,
        status_text(next_peer(d, Msg::UpdateState(State::Uncompress)).0.status)
            == "Uncompressing files..."@,
        status_text(next_peer(d, Msg::UpdateState(State::Final)).0.status) == "Finished Transfer"@,
        next_peer(d, Msg::UpdateState(State::Compress)).0.status != next_peer(
            d,
            Msg::UpdateState(State::Uncompress),
        ).0.status,
{
}

/// Failures while receiving: a bad file or destination is an invalid file,
/// a network or cipher failure is a failed transfer, a corrupted file is a
/// hash mismatch; and a network failure reads the same whichever way the
/// file went.
pub proof fn law_receive_failures_classified(e: ReceiveError)
    ensures
        (error_of_receive(e) == Error::FileNotFound) <==> (e is File || e is Destination),
        (error_of_receive(e) == Error::TransferFailure) <==> (e is Network || e is Cipher),
        (error_of_receive(e) == Error::HashMismatch) <==> (e is HashMismatch),
        error_of_receive(ReceiveError::Network) == error_of_send(SendError::Network),
        error_of_receive(ReceiveError::HashMismatch) == error_of_send(SendError::HashMismatch),
{
}

/// Failures while sending: a missing file or bad path is an invalid file,
/// a path outside reach is a permission failure, a network failure is a
/// failed transfer, a corrupted file is a hash mismatch.
pub proof fn law_send_failures_classified(e: SendError)
    ensures
        (error_of_send(e) == Error::FileNotFound) <==> (e is File || e is Path),
        (error_of_send(e) == Error::FilePermission) <==> (e is Subpath),
        (error_of_send(e) == Error::TransferFailure) <==> (e is Network),
        (error_of_send(e) == Error::HashMismatch) <==> (e is HashMismatch),
{
}

/// Failures while pairing: a missing server, a missing peer, a server of
/// another version or a refused client, and a failing server each have
/// their own report; any failure after the greeting is a failed pairing.
pub proof fn law_pairing_failures_classified(e: PairingError)
    ensures
        (error_of_pairing(e) == Error::NoServer) <==> (e == PairingError::Hello(HelloError::NoServer)),
        (error_of_pairing(e) == Error::NoPeer) <==> (e == PairingError::Hello(HelloError::NoPeer)),
        (error_of_pairing(e) == Error::InvalidServer) <==> (e == PairingError::Hello(
            HelloError::ServerUnsupportedVersion,
        ) || e == PairingError::Hello(HelloError::ClientError)),
        (error_of_pairing(e) == Error::ServerFailure) <==> (e == PairingError::Hello(
            HelloError::ServerError,
        )),
        (error_of_pairing(e) == Error::PairingFailure) <==> !(e is Hello),
{
}

/// The dialog follows the progress messages of the protocol: compressing
/// and uncompressing are announced as such, the size restarts the count at
/// zero of that size, progress adds exactly its bytes, and the end shows
/// the transfer finished with the busy indicator stopped.
pub proof fn law_channel_messages_drive_dialog(d: Peer, m: ChannelMessage)
    requires
        m matches ChannelMessage::Progress(n) ==> d.current + n <= usize::MAX,
    ensures
        m is Compression ==> status_text(next_peer(d, dialog_input(m)).0.status)
            == "Compressing files before transfer..."@,
        m is Uncompressing ==> status_text(next_peer(d, dialog_input(m)).0.status)
            == "Uncompressing files..."@,
        m is Finished ==> status_text(next_peer(d, dialog_input(m)).0.status)
            == "Finished Transfer"@ && !next_peer(d, dialog_input(m)).0.pulsing,
        m matches ChannelMessage::ProgressSize(t) ==> next_peer(d, dialog_input(m)).0.total == t
            && next_peer(d, dialog_input(m)).0.current == 0,
        m matches ChannelMessage::Progress(n) ==> next_peer(d, dialog_input(m)).0.current
            == d.current + n && next_peer(d, dialog_input(m)).0.total == d.total,
{
}

/// The report of a failure on the dialog and the report kept for the peer
/// name the same kind of failure.
pub open spec fn same_failure(p: PeerError, e: Error) -> bool {
    match p {
        PeerError::NoPeer => e == Error::NoPeer,
        PeerError::NoServer => e == Error::NoServer,
        PeerError::InvalidServer => e == Error::InvalidServer,
        PeerError::ServerFailure => e == Error::ServerFailure,
        PeerError::PairingFailure => e == Error::PairingFailure,
        PeerError::FileNotFound => e == Error::FileNotFound,
        PeerError::HashMismatch => e == Error::HashMismatch,
        PeerError::TransferFailure => e == Error::TransferFailure,
    }
}

/// The two classifications of protocol failures agree: pairing and
/// receiving failures are named alike by both, and so are sending
/// failures, but for a path out of reach, which the dialog alone reports
/// as a permission failure.
pub proof fn law_failure_classifications_agree(p: PairingError, r: ReceiveError, s: SendError)
    ensures
        same_failure(peer_error_of_pairing(p), error_of_pairing(p)),
        same_failure(peer_error_of_receive(r), error_of_receive(r)),
        !(s is Subpath) ==> same_failure(peer_error_of_send(s), error_of_send(s)),
        s is Subpath ==> peer_error_of_send(s) == PeerError::FileNotFound && error_of_send(s)
            == Error::FilePermission,
{
}

/// The terminal bar and the transfer dialog follow the same messages
/// alike: the bar starts at the size the dialog counts towards, moves by
/// the bytes the dialog adds, and announces compressing or uncompressing
/// exactly when the dialog says so; the end closes the bar and stops the
/// dialog's busy indicator.
pub proof fn law_bar_and_dialog_agree(shown: bool, d: Peer, m: ChannelMessage)
    requires
        m matches ChannelMessage::Progress(n) ==> d.current + n <= usize::MAX,
    ensures
        m is ProgressSize ==> bar_step(shown, m) == (true, BarAction::Start(
            next_peer(d, dialog_input(m)).0.total as u64,
        )),
        m is Progress ==> bar_step(true, m).1 == BarAction::Advance(
            (next_peer(d, dialog_input(m)).0.current - d.current) as u64,
        ),
        (bar_step(shown, m).1 is AnnounceCompression) <==> (next_peer(d, dialog_input(m)).0.status
            == StatusText::Compressing),
        (bar_step(shown, m).1 is AnnounceUncompressing) <==> (next_peer(
            d,
            dialog_input(m),
        ).0.status == StatusText::Uncompressing),
        m is Finished ==> !bar_step(shown, m).0 && !next_peer(d, dialog_input(m)).0.pulsing,
{
}

} // verus!
