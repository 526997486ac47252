//! The send page of the graphical client: when a transfer can be
//! started, what it is started with, and what follows its end.

use vstd::prelude::*;
use vstd::utf8::encode_utf8;
use crate::app::{sender_finished_requests, sender_finished_requests_spec, views, Request, RequestView};
use crate::passphrase::text_bytes;
use crate::peer::{ContactAction, Error, Params, PassphraseMethod, TransferType};
use crate::toaster::Severity;

verus! {

/// What a page does besides the requests it sends to the main window; `P`
/// is a file-system path and `C` a handle to the saved contacts.
pub enum PageAction<P, C> {
    Nothing,
    /// Fill the passphrase field with a freshly generated passphrase.
    GeneratePassphrase,
    /// Put the cursor in the passphrase field.
    FocusPassphrase,
    /// Copy the passphrase to the clipboard.
    CopyPassphrase,
    /// Turn the "save contact" switch off.
    DisableSaveContact,
    /// Show the picker of files.
    OpenFilePicker,
    /// Show the picker of folders.
    OpenFolderPicker,
    /// Show the picked file or folder.
    ShowPicked,
    /// Start this transfer.
    StartTransfer(TransferType<P, C>),
}

/// An input of the send page.
pub enum Msg<P, C> {
    GeneratePassphrase,
    /// The passphrase now has this many characters.
    PassphraseChanged(u32),
    FocusEditPassword,
    /// The copy button was pressed; `clipboard` tells whether there is a
    /// clipboard to copy to.
    CopyPassword { clipboard: bool },
    /// The "save contact" switch changed to `active`.
    SaveContact { active: bool },
    /// The main window handed over the contacts, or their absence.
    ContactsReady(Option<C>),
    /// The file button was pressed.
    FilePickerOpen,
    /// The folder button was pressed.
    DirectoryPickerOpen,
    /// A file or folder was picked.
    FilePickerResponse(P),
    /// "Connect" was pressed, with this text in the passphrase field, this
    /// name in the contact field, and the "save contact" switch at
    /// `save_active`.
    SendFile { passphrase: String, contact: String, save_active: bool },
    /// The transfer ended.
    AportureFinished(Result<ContactAction, Error>),
    Ignore,
}

/// The state of the send page: the length of the passphrase, the picked
/// file or folder, the contacts once handed over, and whether the form is
/// busy with a transfer.
pub struct SenderPage<P, C> {
    pub passphrase_length: u32,
    pub file_path: Option<P>,
    pub contacts: Option<C>,
    pub form_disabled: bool,
}

pub open spec fn toast_view(text: Seq<char>, severity: Severity) -> RequestView {
    RequestView::Toast(text, severity)
}

/// `action` starts a transfer (a sending one when `send`) that pairs with
/// the UTF-8 bytes of `passphrase`, moves a copy of the picked `path`, and,
/// when `save_active`, saves the peer under `contact` into a copy of the
/// held `contacts` (and saves nothing otherwise).
pub open spec fn starts_transfer<P: Clone, C: Clone>(
    action: PageAction<P, C>,
    send: bool,
    passphrase: Seq<char>,
    path: Option<P>,
    contact: String,
    save_active: bool,
    contacts: Option<C>,
) -> bool {
    action matches PageAction::StartTransfer(t) && (t is Send) == send && {
        let params = t.params();
        &&& (params.passphrase matches PassphraseMethod::Direct(b) && b@ == encode_utf8(passphrase))
        &&& (path matches Some(f) && cloned::<P>(f, params.path))
        &&& if save_active {
            params.save matches Some((n, h)) && n == contact && (contacts matches Some(k)
                && cloned::<C>(k, h))
        } else {
            params.save is None
        }
    }
}

/// How the send page `p` answers `input`, becoming `q`, doing `action` and
/// sending the requests `reqs` to the main window.
pub open spec fn sender_stepped<P: Clone, C: Clone>(
    p: SenderPage<P, C>,
    input: Msg<P, C>,
    q: SenderPage<P, C>,
    action: PageAction<P, C>,
    reqs: Seq<RequestView>,
) -> bool {
    match input {
        Msg::GeneratePassphrase => q == p && action is GeneratePassphrase && reqs == Seq::<
            RequestView,
        >::empty(),
        Msg::PassphraseChanged(n) => q == (SenderPage { passphrase_length: n, ..p })
            && action is Nothing && reqs == Seq::<RequestView>::empty(),
        Msg::FocusEditPassword => q == p && action is FocusPassphrase && reqs == Seq::<
            RequestView,
        >::empty(),
        Msg::CopyPassword { clipboard } => q == p && if clipboard {
            action is CopyPassphrase && reqs == seq![
                toast_view("Coppied passphrase to clipboard"@, Severity::Info),
            ]
        } else {
            action is Nothing && reqs == seq![
                toast_view("Could not copy to clipboard"@, Severity::Error),
            ]
        },
        Msg::SaveContact { active } => q == p && action is Nothing && reqs == if p.contacts is None
            && active {
            seq![RequestView::Contacts]
        } else {
            Seq::<RequestView>::empty()
        },
        Msg::ContactsReady(c) => reqs == Seq::<RequestView>::empty() && if p.contacts is Some {
            q == p && action is Nothing
        } else if c is Some {
            q == (SenderPage { contacts: c, ..p }) && action is Nothing
        } else {
            q == p && action is DisableSaveContact
        },
        Msg::FilePickerOpen => q == p && action is OpenFilePicker && reqs == Seq::<
            RequestView,
        >::empty(),
        Msg::DirectoryPickerOpen => q == p && action is OpenFolderPicker && reqs == Seq::<
            RequestView,
        >::empty(),
        Msg::FilePickerResponse(f) => q == (SenderPage { file_path: Some(f), ..p })
            && action is ShowPicked && reqs == Seq::<RequestView>::empty(),
        Msg::SendFile { passphrase, contact, save_active } => {
            &&& q == (SenderPage { form_disabled: true, ..p })
            &&& reqs == Seq::<RequestView>::empty()
            &&& starts_transfer(action, true, passphrase@, p.file_path, contact, save_active, p.contacts)
        },
        Msg::AportureFinished(result) => q == (SenderPage { form_disabled: false, ..p })
            && action is Nothing && reqs == sender_finished_requests_spec(result),
        Msg::Ignore => q == p && action is Nothing && reqs == Seq::<RequestView>::empty(),
    }
}

fn toast(text: &str, severity: Severity) -> (r: Request)
    ensures
        r@ == RequestView::Toast(text@, severity),
{
    Request::Toast(text.to_owned(), severity)
}

/// "Connect" can be pressed when the form is not busy, there is a
/// passphrase and a file is picked.
pub open spec fn can_send_spec<P, C>(p: SenderPage<P, C>) -> bool {
    !p.form_disabled && p.passphrase_length != 0 && p.file_path is Some
}

impl<P: Clone, C: Clone> SenderPage<P, C> {
    /// The page as it opens: a generated passphrase is already in place
    /// and nothing is picked.
    pub fn new() -> (r: Self)
        ensures
            r == (SenderPage::<P, C> {
                passphrase_length: 1,
                file_path: None,
                contacts: None,
                form_disabled: false,
            }),
    {
        SenderPage { passphrase_length: 1, file_path: None, contacts: None, form_disabled: false }
    }

    /// Whether "Connect" can be pressed: see [`can_send_spec`].
    pub fn can_send(&self) -> (r: bool)
        ensures
            r == can_send_spec(*self),
    {
        !self.form_disabled && self.passphrase_length != 0 && self.file_path.is_some()
    }

    /// Answers one input, as [`sender_stepped`] says. A transfer is only
    /// started with a file picked, and with the contacts held when the peer
    /// is to be saved.
    pub fn step(&mut self, input: Msg<P, C>) -> (r: (PageAction<P, C>, Vec<Request>))
        requires
            input matches Msg::SendFile { save_active, .. } ==> old(self).file_path is Some && (
            save_active ==> old(self).contacts is Some),
        ensures
            sender_stepped(*old(self), input, *final(self), r.0, views(r.1@)),
    {
        let mut requests: Vec<Request> = Vec::new();
        let action = match input {
            Msg::GeneratePassphrase => PageAction::GeneratePassphrase,
            Msg::PassphraseChanged(n) => {
                self.passphrase_length = n;
                PageAction::Nothing
            },
            Msg::FocusEditPassword => PageAction::FocusPassphrase,
            Msg::CopyPassword { clipboard } => if clipboard {
                requests.push(toast("Coppied passphrase to clipboard", Severity::Info));
                PageAction::CopyPassphrase
            } else {
                requests.push(toast("Could not copy to clipboard", Severity::Error));
                PageAction::Nothing
            },
            Msg::SaveContact { active } => {
                if self.contacts.is_none() && active {
                    requests.push(Request::Contacts);
                }
                PageAction::Nothing
            },
            Msg::ContactsReady(c) => if self.contacts.is_some() {
                PageAction::Nothing
            } else if c.is_some() {
                self.contacts = c;
                PageAction::Nothing
            } else {
                PageAction::DisableSaveContact
            },
            Msg::FilePickerOpen => PageAction::OpenFilePicker,
            Msg::DirectoryPickerOpen => PageAction::OpenFolderPicker,
            Msg::FilePickerResponse(f) => {
                self.file_path = Some(f);
                PageAction::ShowPicked
            },
            Msg::SendFile { passphrase, contact, save_active } => {
                self.form_disabled = true;
                let bytes = text_bytes(passphrase.as_str());
                let save = if save_active {
                    Some((contact, self.contacts.clone().unwrap()))
                } else {
                    None
                };
                let path = self.file_path.clone().unwrap();
                PageAction::StartTransfer(
                    TransferType::Send(Params::new(PassphraseMethod::Direct(bytes), path, save)),
                )
            },
            Msg::AportureFinished(result) => {
                requests = sender_finished_requests(&result);
                self.form_disabled = false;
                PageAction::Nothing
            },
            Msg::Ignore => PageAction::Nothing,
        };
        proof {
            let v = views(requests@);
            if requests@.len() == 0 {
                assert(v =~= Seq::<RequestView>::empty());
            }
            if input is CopyPassword {
                assert(v =~= seq![v[0]]);
            }
            if input is SaveContact {
                if v.len() == 1 {
                    assert(v =~= seq![RequestView::Contacts]);
                } else {
                    assert(v =~= Seq::<RequestView>::empty());
                }
            }
        }
        (action, requests)
    }
}

/// While a transfer runs the form is disabled and "Connect" cannot be
/// pressed; the form is enabled again when the transfer ends, whatever its
/// result.
pub proof fn law_sender_busy_during_transfer<P: Clone, C: Clone>(
    p: SenderPage<P, C>,
    passphrase: String,
    contact: String,
    save_active: bool,
    q: SenderPage<P, C>,
    a: PageAction<P, C>,
    v: Seq<RequestView>,
    result: Result<ContactAction, Error>,
    q2: SenderPage<P, C>,
    a2: PageAction<P, C>,
    v2: Seq<RequestView>,
)
    requires
        sender_stepped(p, Msg::SendFile { passphrase, contact, save_active }, q, a, v),
        sender_stepped(q, Msg::AportureFinished(result), q2, a2, v2),
    ensures
        q.form_disabled,
        !can_send_spec(q),
        !q2.form_disabled,
{
}

/// A page that holds the contacts never asks for them again, and keeps
/// them whatever is handed over later.
pub proof fn law_sender_asks_contacts_once<P: Clone, C: Clone>(
    p: SenderPage<P, C>,
    active: bool,
    q: SenderPage<P, C>,
    a: PageAction<P, C>,
    v: Seq<RequestView>,
    c: Option<C>,
    q2: SenderPage<P, C>,
    a2: PageAction<P, C>,
    v2: Seq<RequestView>,
)
    requires
        p.contacts is Some,
        sender_stepped(p, Msg::SaveContact { active }, q, a, v),
        sender_stepped(p, Msg::ContactsReady(c), q2, a2, v2),
    ensures
        v == Seq::<RequestView>::empty(),
        q2.contacts == p.contacts,
{
}

/// The transfer started after picking a file moves a copy of that file,
/// pairing with the typed passphrase.
pub proof fn law_sender_sends_picked_file<P: Clone, C: Clone>(
    p: SenderPage<P, C>,
    f: P,
    q: SenderPage<P, C>,
    a: PageAction<P, C>,
    v: Seq<RequestView>,
    passphrase: String,
    contact: String,
    q2: SenderPage<P, C>,
    a2: PageAction<P, C>,
    v2: Seq<RequestView>,
)
    requires
        sender_stepped(p, Msg::FilePickerResponse(f), q, a, v),
        sender_stepped(q, Msg::SendFile { passphrase, contact, save_active: false }, q2, a2, v2),
    ensures
        a2 matches PageAction::StartTransfer(TransferType::Send(t)) && cloned::<P>(f, t.path)
            && t.save is None && (t.passphrase matches PassphraseMethod::Direct(b) && b@
            == encode_utf8(passphrase@)),
{
}

/// "Connect" starts one sending transfer, pairing with the UTF-8 bytes of
/// the typed passphrase and moving a copy of the picked file; the peer is
/// saved, under the typed name and into a copy of the held contacts,
/// exactly when the switch is on.
pub proof fn law_sender_saves_iff_switch<P: Clone, C: Clone>(
    p: SenderPage<P, C>,
    passphrase: String,
    contact: String,
    save_active: bool,
    q: SenderPage<P, C>,
    a: PageAction<P, C>,
    v: Seq<RequestView>,
)
    requires
        sender_stepped(p, Msg::SendFile { passphrase, contact, save_active }, q, a, v),
    ensures
        a matches PageAction::StartTransfer(TransferType::Send(t)) && {
            &&& t.passphrase matches PassphraseMethod::Direct(b) && b@ == encode_utf8(passphrase@)
            &&& p.file_path matches Some(f) && cloned::<P>(f, t.path)
            &&& (t.save is Some) == save_active
            &&& t.save matches Some((n, h)) ==> n == contact && (p.contacts matches Some(k)
                && cloned::<C>(k, h))
        },
        v.len() == 0,
{
}

} // verus!
