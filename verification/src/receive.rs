//! The receive page of the graphical client: when a transfer can be
//! started, what it is started with, and what follows its end.

use vstd::prelude::*;
use vstd::utf8::encode_utf8;
use crate::app::{finished_requests, finished_requests_spec, views, Request, RequestView};
use crate::passphrase::text_bytes;
use crate::peer::{ContactAction, Error, Params, PassphraseMethod, TransferType};
use crate::send::{starts_transfer, PageAction};

verus! {

/// An input of the receive page; `P` is a file-system path and `C` a
/// handle to the saved contacts.
pub enum Msg<P, C> {
    /// "Connect" was pressed, with this text in the passphrase field, this
    /// name in the contact field, and the "save contact" switch at
    /// `save_active`.
    ReceiveFile { passphrase: String, contact: String, save_active: bool },
    /// The transfer ended.
    AportureFinished(Result<ContactAction, Error>),
    /// The passphrase now has this many characters.
    PassphraseChanged(u32),
    /// The "save contact" switch changed to `active`.
    SaveContact { active: bool },
    /// The main window handed over the contacts, or their absence.
    ContactsReady(Option<C>),
    /// The destination button was pressed.
    FilePickerOpen,
    /// A destination folder was picked.
    FilePickerResponse(P),
    Ignore,
}

/// The state of the receive page: the length of the passphrase, the
/// folder to receive into, the contacts once handed over, and whether the
/// form is busy with a transfer.
pub struct ReceiverPage<P, C> {
    pub passphrase_length: u32,
    pub destination: Option<P>,
    pub contacts: Option<C>,
    pub form_disabled: bool,
}

/// How the receive page `p` answers `input`, becoming `q`, doing `action`
/// and sending the requests `reqs` to the main window.
pub open spec fn receiver_stepped<P: Clone, C: Clone>(
    p: ReceiverPage<P, C>,
    input: Msg<P, C>,
    q: ReceiverPage<P, C>,
    action: PageAction<P, C>,
    reqs: Seq<RequestView>,
) -> bool {
    match input {
        Msg::ReceiveFile { passphrase, contact, save_active } => {
            &&& q == (ReceiverPage { form_disabled: true, ..p })
            &&& reqs == Seq::<RequestView>::empty()
            &&& starts_transfer(action, false, passphrase@, p.destination, contact, save_active, p.contacts)
        },
        Msg::AportureFinished(result) => q == (ReceiverPage { form_disabled: false, ..p })
            && action is Nothing && reqs == finished_requests_spec(result),
        Msg::PassphraseChanged(n) => q == (ReceiverPage { passphrase_length: n, ..p })
            && action is Nothing && reqs == Seq::<RequestView>::empty(),
        Msg::SaveContact { active } => q == p && action is Nothing && reqs == if p.contacts is None
            && active {
            seq![RequestView::Contacts]
        } else {
            Seq::<RequestView>::empty()
        },
        Msg::ContactsReady(c) => reqs == Seq::<RequestView>::empty() && if p.contacts is Some {
            q == p && action is Nothing
        } else if c is Some {
            q == (ReceiverPage { contacts: c, ..p }) && action is Nothing
        } else {
            q == p && action is DisableSaveContact
        },
        Msg::FilePickerOpen => q == p && action is OpenFolderPicker && reqs == Seq::<
            RequestView,
        >::empty(),
        Msg::FilePickerResponse(d) => q == (ReceiverPage { destination: Some(d), ..p })
            && action is ShowPicked && reqs == Seq::<RequestView>::empty(),
        Msg::Ignore => q == p && action is Nothing && reqs == Seq::<RequestView>::empty(),
    }
}

/// "Connect" can be pressed when the form is not busy and there is a
/// passphrase.
pub open spec fn can_receive_spec<P, C>(p: ReceiverPage<P, C>) -> bool {
    !p.form_disabled && p.passphrase_length != 0
}

impl<P: Clone, C: Clone> ReceiverPage<P, C> {
    /// The page as it opens: no passphrase; the destination is the default
    /// folder to receive into (the downloads folder), when one is known.
    pub fn new(destination: Option<P>) -> (r: Self)
        ensures
            r == (ReceiverPage::<P, C> {
                passphrase_length: 0,
                destination,
                contacts: None,
                form_disabled: false,
            }),
    {
        ReceiverPage { passphrase_length: 0, destination, contacts: None, form_disabled: false }
    }

    /// Whether "Connect" can be pressed: see [`can_receive_spec`].
    pub fn can_receive(&self) -> (r: bool)
        ensures
            r == can_receive_spec(*self),
    {
        !self.form_disabled && self.passphrase_length != 0
    }

    /// Answers one input, as [`receiver_stepped`] says. A transfer is only
    /// started with a destination, and with the contacts held when the peer
    /// is to be saved.
    pub fn step(&mut self, input: Msg<P, C>) -> (r: (PageAction<P, C>, Vec<Request>))
        requires
            input matches Msg::ReceiveFile { save_active, .. } ==> old(self).destination is Some
                && (save_active ==> old(self).contacts is Some),
        ensures
            receiver_stepped(*old(self), input, *final(self), r.0, views(r.1@)),
    {
        let mut requests: Vec<Request> = Vec::new();
        let action = match input {
            Msg::ReceiveFile { passphrase, contact, save_active } => {
                self.form_disabled = true;
                let bytes = text_bytes(passphrase.as_str());
                let save = if save_active {
                    Some((contact, self.contacts.clone().unwrap()))
                } else {
                    None
                };
                let path = self.destination.clone().unwrap();
                PageAction::StartTransfer(
                    TransferType::Receive(Params::new(PassphraseMethod::Direct(bytes), path, save)),
                )
            },
            Msg::AportureFinished(result) => {
                requests = finished_requests(&result);
                self.form_disabled = false;
                PageAction::Nothing
            },
            Msg::PassphraseChanged(n) => {
                self.passphrase_length = n;
                PageAction::Nothing
            },
            Msg::SaveContact { active } => {
                if self.contacts.is_none() && active {
                    requests.push(Request::Contacts);
                }
                PageAction::Nothing
            },
            Msg::ContactsReady(c) => if self.contacts.is_some() {
                PageAction::Nothing
            } else if c.is_some() {
                self.contacts = c;
                PageAction::Nothing
            } else {
                PageAction::DisableSaveContact
            },
            Msg::FilePickerOpen => PageAction::OpenFolderPicker,
            Msg::FilePickerResponse(d) => {
                self.destination = Some(d);
                PageAction::ShowPicked
            },
            Msg::Ignore => PageAction::Nothing,
        };
        proof {
            let v = views(requests@);
            if requests@.len() == 0 {
                assert(v =~= Seq::<RequestView>::empty());
            }
            if input is SaveContact {
                if v.len() == 1 {
                    assert(v =~= seq![RequestView::Contacts]);
                } else {
                    assert(v =~= Seq::<RequestView>::empty());
                }
            }
        }
        (action, requests)
    }
}

/// While a transfer runs the form is disabled and "Connect" cannot be
/// pressed; the form is enabled again when the transfer ends, whatever its
/// result.
pub proof fn law_receiver_busy_during_transfer<P: Clone, C: Clone>(
    p: ReceiverPage<P, C>,
    passphrase: String,
    contact: String,
    save_active: bool,
    q: ReceiverPage<P, C>,
    a: PageAction<P, C>,
    v: Seq<RequestView>,
    result: Result<ContactAction, Error>,
    q2: ReceiverPage<P, C>,
    a2: PageAction<P, C>,
    v2: Seq<RequestView>,
)
    requires
        receiver_stepped(p, Msg::ReceiveFile { passphrase, contact, save_active }, q, a, v),
        receiver_stepped(q, Msg::AportureFinished(result), q2, a2, v2),
    ensures
        q.form_disabled,
        !can_receive_spec(q),
        !q2.form_disabled,
{
}

/// A page that holds the contacts never asks for them again, and keeps
/// them whatever is handed over later.
pub proof fn law_receiver_asks_contacts_once<P: Clone, C: Clone>(
    p: ReceiverPage<P, C>,
    active: bool,
    q: ReceiverPage<P, C>,
    a: PageAction<P, C>,
    v: Seq<RequestView>,
    c: Option<C>,
    q2: ReceiverPage<P, C>,
    a2: PageAction<P, C>,
    v2: Seq<RequestView>,
)
    requires
        p.contacts is Some,
        receiver_stepped(p, Msg::SaveContact { active }, q, a, v),
        receiver_stepped(p, Msg::ContactsReady(c), q2, a2, v2),
    ensures
        v == Seq::<RequestView>::empty(),
        q2.contacts == p.contacts,
{
}

/// The transfer started after picking a folder receives into a copy of
/// that folder, pairing with the typed passphrase.
pub proof fn law_receiver_uses_picked_folder<P: Clone, C: Clone>(
    p: ReceiverPage<P, C>,
    d: P,
    q: ReceiverPage<P, C>,
    a: PageAction<P, C>,
    v: Seq<RequestView>,
    passphrase: String,
    contact: String,
    q2: ReceiverPage<P, C>,
    a2: PageAction<P, C>,
    v2: Seq<RequestView>,
)
    requires
        receiver_stepped(p, Msg::FilePickerResponse(d), q, a, v),
        receiver_stepped(q, Msg::ReceiveFile { passphrase, contact, save_active: false }, q2, a2, v2),
    ensures
        a2 matches PageAction::StartTransfer(TransferType::Receive(t)) && cloned::<P>(d, t.path)
            && t.save is None && (t.passphrase matches PassphraseMethod::Direct(b) && b@
            == encode_utf8(passphrase@)),
{
}

/// "Connect" starts one receiving transfer, pairing with the UTF-8 bytes of
/// the typed passphrase into a copy of the chosen folder; the peer is
/// saved, under the typed name and into a copy of the held contacts,
/// exactly when the switch is on.
pub proof fn law_receiver_saves_iff_switch<P: Clone, C: Clone>(
    p: ReceiverPage<P, C>,
    passphrase: String,
    contact: String,
    save_active: bool,
    q: ReceiverPage<P, C>,
    a: PageAction<P, C>,
    v: Seq<RequestView>,
)
    requires
        receiver_stepped(p, Msg::ReceiveFile { passphrase, contact, save_active }, q, a, v),
    ensures
        a matches PageAction::StartTransfer(TransferType::Receive(t)) && {
            &&& t.passphrase matches PassphraseMethod::Direct(b) && b@ == encode_utf8(passphrase@)
            &&& p.destination matches Some(f) && cloned::<P>(f, t.path)
            &&& (t.save is Some) == save_active
            &&& t.save matches Some((n, h)) ==> n == contact && (p.contacts matches Some(k)
                && cloned::<C>(k, h))
        },
        v.len() == 0,
{
}

} // verus!
