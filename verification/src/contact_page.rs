//! The contacts page of the graphical client: one row per saved contact,
//! from which a file is sent to or received from that contact.

use vstd::prelude::*;
use crate::app::{finished_requests, finished_requests_spec, views, Request, RequestView};
use crate::confirmation::{is_confirmed, Confirmation};
use crate::contact_row::{cloned_option, Contact, Output};
use crate::contacts::{is_deleted, ContactBook};
use crate::peer::{ContactAction, Error, Params, PassphraseMethod, TransferType};
use crate::toaster::Severity;

verus! {

/// An input of the contacts page; `P` is a file-system path and `C` a
/// handle to the saved contacts.
pub enum Msg<P, C> {
    /// The main window handed over the contacts, or their absence;
    /// `downloads_known` tells whether a default folder to receive into is
    /// known.
    ContactsReady { contacts: Option<C>, downloads_known: bool },
    SendFile(String, P),
    SenderPickerOpen(String),
    SenderPickerResponse(P),
    ReceiveFile(String, P),
    ReceiverPickerOpen(String),
    ReceiverPickerResponse(P),
    DeleteContact(String),
    DeleteContactUI(String),
    AportureFinished(Result<ContactAction, Error>),
    Ignore,
}

/// The page input that a row's request becomes.
pub open spec fn msg_of<P, C>(output: Output<P>) -> Msg<P, C> {
    match output {
        Output::Send(name, path) => Msg::SendFile(name, path),
        Output::Receive(name, path) => Msg::ReceiveFile(name, path),
        Output::SendFilePicker(name) => Msg::SenderPickerOpen(name),
        Output::ReceiveFilePicker(name) => Msg::ReceiverPickerOpen(name),
        Output::Delete(name) => Msg::DeleteContact(name),
    }
}

impl<P, C> From<Output<P>> for Msg<P, C> {
    fn from(output: Output<P>) -> (r: Self) {
        match output {
            Output::Send(name, path) => Msg::SendFile(name, path),
            Output::Receive(name, path) => Msg::ReceiveFile(name, path),
            Output::SendFilePicker(name) => Msg::SenderPickerOpen(name),
            Output::ReceiveFilePicker(name) => Msg::ReceiverPickerOpen(name),
            Output::Delete(name) => Msg::DeleteContact(name),
        }
    }
}

impl<P, C> vstd::std_specs::convert::FromSpecImpl<Output<P>> for Msg<P, C> {
    open spec fn obeys_from_spec() -> bool {
        true
    }

    open spec fn from_spec(output: Output<P>) -> Self {
        msg_of(output)
    }
}

/// What the contacts page does in answer to an input.
pub enum Effect<P, C> {
    Nothing,
    /// Rebuild the rows from the saved contacts (see [`rows_for`]).
    ShowContacts,
    /// Start a transfer with a contact, whose key is read from the contacts
    /// handed along, without saving the peer again.
    StartTransfer(TransferType<P, C>, C),
    /// Ask whether a file or a folder is sent.
    ChooseSendKind,
    /// Show the picker of folders to receive into.
    OpenReceivePicker,
    /// Hand a picked path to the row of the named contact, as what to send.
    RowSendPath(String, P),
    /// Hand a picked path to the row of the named contact, as where to
    /// receive.
    RowReceivePath(String, P),
    /// Ask for confirmation before deleting the named contact.
    AskDelete(String, Confirmation),
    /// Remove the row of the named contact.
    RemoveRow(String),
}

/// The state of the contacts page: the contact whose row last opened a
/// picker, the contacts once handed over, and whether a transfer runs.
pub struct ContactPage<C> {
    pub current_contact: String,
    pub contacts: Option<C>,
    pub transfer_running: bool,
}

pub open spec fn missing_downloads_text() -> Seq<char> {
    "Could not find default receive directory, please pick one before sending"@
}

/// The question asked before deleting `name`.
pub open spec fn delete_heading(name: Seq<char>) -> Seq<char> {
    "delete contact \""@ + name + "\""@
}

fn delete_question(name: &String) -> (r: Confirmation)
    ensures
        r.heading@ == delete_heading(name@),
        r.confirm == Some("Delete"),
        r.deny == Some("Cancel"),
{
    let mut heading = String::from_str("delete contact \"");
    heading.append(name.as_str());
    heading.append("\"");
    let mut c = Confirmation::new(heading);
    c.confirm("Delete").deny("Cancel");
    c
}

/// The rows of the contacts page: one per saved contact, under its name,
/// with the time it was added, nothing picked to send, folded, and a copy
/// of `destination` (the default folder to receive into) as where to
/// receive.
pub fn rows_for<P: Clone>(book: &ContactBook, destination: &Option<P>) -> (r: Vec<Contact<P>>)
    ensures
        r@.len() == book.size(),
        forall|i: int|
            0 <= i < r@.len() ==> (#[trigger] book.entry(r@[i].name@) matches Some(e) && e.1
                == r@[i].added),
        forall|i: int|
            0 <= i < r@.len() ==> (#[trigger] r@[i]).path is None && !r@[i].expanded
                && cloned_option(*destination, r@[i].destination),
        forall|i: int, j: int|
            0 <= i < r@.len() && 0 <= j < r@.len() && i != j ==> #[trigger] r@[i].name@
                != #[trigger] r@[j].name@,
        forall|n: Seq<char>|
            #[trigger] book.entry(n) is Some ==> exists|i: int|
                0 <= i < r@.len() && #[trigger] r@[i].name@ == n,
{
    let saved = book.list();
    let mut rows: Vec<Contact<P>> = Vec::new();
    let mut i: usize = 0;
    while i < saved.len()
        invariant
            i <= saved@.len(),
            rows@.len() == i,
            forall|j: int|
                0 <= j < i ==> (#[trigger] rows@[j]).name@ == saved@[j].0@ && rows@[j].added
                    == saved@[j].1 && rows@[j].path is None && !rows@[j].expanded
                    && cloned_option(*destination, rows@[j].destination),
        decreases saved@.len() - i,
    {
        let here = match destination {
            Some(p) => Some(p.clone()),
            None => None,
        };
        let name = saved[i].0.clone();
        rows.push(Contact::new(name, saved[i].1, here));
        i = i + 1;
    }
    proof {
        assert forall|i: int| 0 <= i < rows@.len() implies (#[trigger] book.entry(
            rows@[i].name@,
        ) matches Some(e) && e.1 == rows@[i].added) by {
            assert(rows@[i].name@ == saved@[i].0@);
            assert(book.entry(saved@[i].0@) matches Some(e) && e.1 == saved@[i].1);
        }
        assert forall|i: int, j: int|
            0 <= i < rows@.len() && 0 <= j < rows@.len() && i != j implies #[trigger] rows@[i].name@
            != #[trigger] rows@[j].name@ by {
            assert(rows@[i].name@ == saved@[i].0@);
            assert(rows@[j].name@ == saved@[j].0@);
            assert(saved@[i].0@ != saved@[j].0@);
        }
        assert forall|n: Seq<char>| #[trigger] book.entry(n) is Some implies exists|i: int|
            0 <= i < rows@.len() && #[trigger] rows@[i].name@ == n by {
            let i = choose|i: int| 0 <= i < saved@.len() && #[trigger] saved@[i].0@ == n;
            assert(rows@[i].name@ == n);
        }
    }
    rows
}

/// How the contacts page `p` answers `input`, becoming `q`, doing
/// `effect` and sending the requests `reqs` to the main window. Contacts
/// handed over are kept (those already held stay) and shown, with a
/// warning when no default folder to receive into is known; a transfer
/// reads its key from the held contacts; a picked path goes to the row that
/// last opened a picker; a deletion is confirmed first; the end of a
/// transfer is reported.
pub open spec fn page_stepped<P, C: Clone>(
    p: ContactPage<C>,
    input: Msg<P, C>,
    q: ContactPage<C>,
    effect: Effect<P, C>,
    reqs: Seq<RequestView>,
) -> bool {
    match input {
        Msg::ContactsReady { contacts, downloads_known } => match contacts {
            Some(c) => {
                &&& q.contacts == Some(
                    match p.contacts {
                        Some(k) => k,
                        None => c,
                    },
                )
                &&& q.current_contact == p.current_contact
                &&& q.transfer_running == p.transfer_running
                &&& effect is ShowContacts
                &&& reqs == if downloads_known {
                    seq![]
                } else {
                    seq![RequestView::Toast(missing_downloads_text(), Severity::Warn)]
                }
            },
            None => q == p && effect is Nothing && reqs.len() == 0,
        },
        Msg::SendFile(name, path) => {
            &&& q.transfer_running
            &&& q.contacts == p.contacts
            &&& q.current_contact == p.current_contact
            &&& reqs.len() == 0
            &&& effect matches Effect::StartTransfer(TransferType::Send(t), h) && t
                == (Params {
                passphrase: PassphraseMethod::Contact(name),
                path,
                save: None::<(String, C)>,
            }) && (p.contacts matches Some(k) && cloned::<C>(k, h))
        },
        Msg::ReceiveFile(name, path) => {
            &&& q.transfer_running
            &&& q.contacts == p.contacts
            &&& q.current_contact == p.current_contact
            &&& reqs.len() == 0
            &&& effect matches Effect::StartTransfer(TransferType::Receive(t), h) && t
                == (Params {
                passphrase: PassphraseMethod::Contact(name),
                path,
                save: None::<(String, C)>,
            }) && (p.contacts matches Some(k) && cloned::<C>(k, h))
        },
        Msg::SenderPickerOpen(name) => {
            &&& q.current_contact == name
            &&& q.contacts == p.contacts
            &&& q.transfer_running == p.transfer_running
            &&& effect is ChooseSendKind
            &&& reqs.len() == 0
        },
        Msg::ReceiverPickerOpen(name) => {
            &&& q.current_contact == name
            &&& q.contacts == p.contacts
            &&& q.transfer_running == p.transfer_running
            &&& effect is OpenReceivePicker
            &&& reqs.len() == 0
        },
        Msg::SenderPickerResponse(path) => {
            &&& q == p
            &&& reqs.len() == 0
            &&& effect matches Effect::RowSendPath(n, w) && n@ == p.current_contact@ && w == path
        },
        Msg::ReceiverPickerResponse(path) => {
            &&& q == p
            &&& reqs.len() == 0
            &&& effect matches Effect::RowReceivePath(n, w) && n@ == p.current_contact@ && w == path
        },
        Msg::DeleteContact(name) => {
            &&& q == p
            &&& reqs.len() == 0
            &&& effect matches Effect::AskDelete(n, c) && n == name && c.heading@
                == delete_heading(name@) && c.confirm == Some("Delete") && c.deny == Some(
                "Cancel",
            )
        },
        Msg::DeleteContactUI(name) => {
            &&& q == p
            &&& reqs.len() == 0
            &&& effect matches Effect::RemoveRow(n) && n == name
        },
        Msg::AportureFinished(result) => {
            &&& !q.transfer_running
            &&& q.contacts == p.contacts
            &&& q.current_contact == p.current_contact
            &&& effect is Nothing
            &&& reqs == finished_requests_spec(result)
        },
        Msg::Ignore => q == p && effect is Nothing && reqs.len()
            == 0,
    }
}

impl<C: Clone> ContactPage<C> {
    /// No contacts yet, no transfer.
    pub fn new() -> (r: Self)
        ensures
            r.current_contact@ == Seq::<char>::empty(),
            r.contacts is None,
            !r.transfer_running,
    {
        ContactPage { current_contact: String::new(), contacts: None, transfer_running: false }
    }

    /// Answers one input, as [`page_stepped`] says. A transfer and a
    /// deletion need the contacts held.
    pub fn step<P>(&mut self, input: Msg<P, C>) -> (r: (Effect<P, C>, Vec<Request>))
        requires
            input matches Msg::SendFile(..) ==> old(self).contacts is Some,
            input matches Msg::ReceiveFile(..) ==> old(self).contacts is Some,
            input matches Msg::DeleteContact(..) ==> old(self).contacts is Some,
        ensures
            page_stepped(*old(self), input, *final(self), r.0, views(r.1@)),
    {
        let mut requests: Vec<Request> = Vec::new();
        let effect = match input {
            Msg::ContactsReady { contacts, downloads_known } => match contacts {
                Some(c) => {
                    if self.contacts.is_none() {
                        self.contacts = Some(c);
                    }
                    if !downloads_known {
                        requests.push(
                            Request::Toast(
                                String::from_str(
                                    "Could not find default receive directory, please pick one before sending",
                                ),
                                Severity::Warn,
                            ),
                        );
                    }
                    proof {
                        assert(views(requests@) =~= if downloads_known {
                            seq![]
                        } else {
                            seq![RequestView::Toast(missing_downloads_text(), Severity::Warn)]
                        });
                    }
                    Effect::ShowContacts
                },
                None => Effect::Nothing,
            },
            Msg::SendFile(name, path) => {
                let handle = self.contacts.clone().unwrap();
                self.transfer_running = true;
                Effect::StartTransfer(
                    TransferType::Send(Params::new(PassphraseMethod::Contact(name), path, None)),
                    handle,
                )
            },
            Msg::ReceiveFile(name, path) => {
                let handle = self.contacts.clone().unwrap();
                self.transfer_running = true;
                Effect::StartTransfer(
                    TransferType::Receive(Params::new(PassphraseMethod::Contact(name), path, None)),
                    handle,
                )
            },
            Msg::SenderPickerOpen(name) => {
                self.current_contact = name;
                Effect::ChooseSendKind
            },
            Msg::ReceiverPickerOpen(name) => {
                self.current_contact = name;
                Effect::OpenReceivePicker
            },
            Msg::SenderPickerResponse(path) => Effect::RowSendPath(
                self.current_contact.clone(),
                path,
            ),
            Msg::ReceiverPickerResponse(path) => Effect::RowReceivePath(
                self.current_contact.clone(),
                path,
            ),
            Msg::DeleteContact(name) => {
                let question = delete_question(&name);
                Effect::AskDelete(name, question)
            },
            Msg::DeleteContactUI(name) => Effect::RemoveRow(name),
            Msg::AportureFinished(result) => {
                self.transfer_running = false;
                requests = finished_requests(&result);
                Effect::Nothing
            },
            Msg::Ignore => Effect::Nothing,
        };
        (effect, requests)
    }
}

/// Whether `input` opens a picker for a row.
pub open spec fn opens_picker<P, C>(input: Msg<P, C>) -> bool {
    input is SenderPickerOpen || input is ReceiverPickerOpen
}

/// The pages `pages` answer the inputs `inputs` in turn, with the effects
/// `effects` and the requests `reqs`.
pub open spec fn page_run<P, C: Clone>(
    pages: Seq<ContactPage<C>>,
    inputs: Seq<Msg<P, C>>,
    effects: Seq<Effect<P, C>>,
    reqs: Seq<Seq<RequestView>>,
) -> bool {
    &&& pages.len() == inputs.len() + 1
    &&& effects.len() == inputs.len()
    &&& reqs.len() == inputs.len()
    &&& forall|i: int|
        #![trigger inputs[i]]
        0 <= i < inputs.len() ==> page_stepped(pages[i], inputs[i], pages[i + 1], effects[i], reqs[i])
}

proof fn lemma_current_contact_kept<P, C: Clone>(
    pages: Seq<ContactPage<C>>,
    inputs: Seq<Msg<P, C>>,
    effects: Seq<Effect<P, C>>,
    reqs: Seq<Seq<RequestView>>,
    k: int,
)
    requires
        page_run(pages, inputs, effects, reqs),
        1 <= k <= inputs.len(),
        forall|i: int| 1 <= i < k ==> !opens_picker(#[trigger] inputs[i]),
    ensures
        pages[k].current_contact == pages[1].current_contact,
    decreases k,
{
    if k > 1 {
        lemma_current_contact_kept(pages, inputs, effects, reqs, k - 1);
        let j = k - 1;
        assert(!opens_picker(inputs[j]));
        assert(page_stepped(pages[j], inputs[j], pages[j + 1], effects[j], reqs[j]));
    }
}

/// Once a picker is opened for the row of `name`, the path picked goes to
/// that row and no other, whatever inputs other than another opening come
/// in between: as what to send when the file picker answered, as where to
/// receive when the folder picker did. The page itself is left unchanged.
pub proof fn law_picked_path_reaches_its_row<P, C: Clone>(
    pages: Seq<ContactPage<C>>,
    inputs: Seq<Msg<P, C>>,
    effects: Seq<Effect<P, C>>,
    reqs: Seq<Seq<RequestView>>,
    name: String,
    path: P,
)
    requires
        page_run(pages, inputs, effects, reqs),
        inputs.len() >= 2,
        inputs[0] == Msg::<P, C>::SenderPickerOpen(name) || inputs[0] == Msg::<
            P,
            C,
        >::ReceiverPickerOpen(name),
        forall|i: int| 1 <= i < inputs.len() - 1 ==> !opens_picker(#[trigger] inputs[i]),
        inputs.last() == Msg::<P, C>::SenderPickerResponse(path) || inputs.last() == Msg::<
            P,
            C,
        >::ReceiverPickerResponse(path),
    ensures
        inputs.last() is SenderPickerResponse ==> (effects.last() matches Effect::RowSendPath(
            n,
            q,
        ) && n@ == name@ && q == path),
        inputs.last() is ReceiverPickerResponse ==> (effects.last() matches Effect::RowReceivePath(
            n,
            q,
        ) && n@ == name@ && q == path),
        pages.last() == pages[inputs.len() - 1],
        reqs.last().len() == 0,
{
    let last = inputs.len() - 1;
    assert(page_stepped(pages[0], inputs[0], pages[1], effects[0], reqs[0]));
    assert(pages[1].current_contact == name);
    lemma_current_contact_kept(pages, inputs, effects, reqs, last);
    assert(page_stepped(pages[last], inputs[last], pages[last + 1], effects[last], reqs[last]));
}

/// The user answered `response` to the question whether to delete `name`:
/// on "yes" the contact is forgotten and the contacts must be saved
/// (`save`); on any other answer nothing changes.
pub open spec fn answered_delete(
    before: &ContactBook,
    name: Seq<char>,
    response: Seq<char>,
    after: &ContactBook,
    save: bool,
) -> bool {
    if response == "yes"@ {
        save && is_deleted(before, after, name)
    } else {
        !save && *after == *before
    }
}

/// Acts on the answer to the deletion question; tells whether the
/// contacts must now be saved.
pub fn answer_delete(book: &mut ContactBook, name: &str, response: &str) -> (r: bool)
    ensures
        answered_delete(old(book), name@, response@, final(book), r),
{
    if is_confirmed(response) {
        book.delete(name);
        true
    } else {
        false
    }
}

/// What follows the confirmed deletion of a contact, once the book was
/// saved (or failed to be).
pub enum DeleteFollowUp {
    /// Remove the contact's row.
    RemoveRow(String),
    /// Tell the user.
    Notify(Request),
}

pub open spec fn delete_failed_view() -> RequestView {
    RequestView::Toast("Could not delete contact"@, Severity::Warn)
}

/// What follows saving the contacts without `name`: its row goes when they
/// were saved; otherwise the user is warned and the row stays.
pub open spec fn followed_delete(name: String, saved: bool, r: DeleteFollowUp) -> bool {
    if saved {
        r matches DeleteFollowUp::RemoveRow(n) && n == name
    } else {
        r matches DeleteFollowUp::Notify(q) && q@ == delete_failed_view()
    }
}

/// Once the book without the contact is saved, the row goes; if saving
/// failed, the user is warned and the row stays.
pub fn after_delete_saved(name: String, saved: bool) -> (r: DeleteFollowUp)
    ensures
        followed_delete(name, saved, r),
{
    if saved {
        DeleteFollowUp::RemoveRow(name)
    } else {
        DeleteFollowUp::Notify(Request::Toast(String::from_str("Could not delete contact"), Severity::Warn))
    }
}

/// A confirmed deletion forgets the contact, asks for the contacts to be
/// saved and, once they are, removes that contact's row and no other; a
/// failed save warns the user and removes no row. Any other answer changes
/// nothing and saves nothing.
pub proof fn law_confirmed_deletion(
    before: &ContactBook,
    after: &ContactBook,
    name: String,
    response: Seq<char>,
    save: bool,
    saved: bool,
    follow: DeleteFollowUp,
)
    requires
        answered_delete(before, name@, response, after, save),
        save ==> followed_delete(name, saved, follow),
    ensures
        response == "yes"@ ==> {
            &&& save
            &&& after.entry(name@) is None
            &&& forall|n: Seq<char>| n != name@ ==> #[trigger] after.entry(n) == before.entry(n)
            &&& saved ==> follow == DeleteFollowUp::RemoveRow(name)
            &&& !saved ==> (follow matches DeleteFollowUp::Notify(q) && q@ == delete_failed_view())
        },
        response != "yes"@ ==> !save && *after == *before,
{
    if response == "yes"@ {
        assert(after.entry(name@) == None::<(Seq<u8>, i64)>);
    }
}

/// A row's request keeps its direction, contact and path when it becomes a
/// page input: sending stays sending, receiving stays receiving, and asking
/// for a picker or a deletion names the same contact.
pub proof fn law_row_request_keeps_direction<P, C>(o: Output<P>)
    ensures
        (msg_of::<P, C>(o) is SendFile) <==> (o is Send),
        (msg_of::<P, C>(o) is ReceiveFile) <==> (o is Receive),
        (msg_of::<P, C>(o) is SenderPickerOpen) <==> (o is SendFilePicker),
        (msg_of::<P, C>(o) is ReceiverPickerOpen) <==> (o is ReceiveFilePicker),
        (msg_of::<P, C>(o) is DeleteContact) <==> (o is Delete),
        o matches Output::Send(n, p) ==> msg_of::<P, C>(o) == Msg::<P, C>::SendFile(n, p),
        o matches Output::Receive(n, p) ==> msg_of::<P, C>(o) == Msg::<P, C>::ReceiveFile(n, p),
        o matches Output::SendFilePicker(n) ==> msg_of::<P, C>(o) == Msg::<P, C>::SenderPickerOpen(n),
        o matches Output::ReceiveFilePicker(n) ==> msg_of::<P, C>(o) == Msg::<P, C>::ReceiverPickerOpen(n),
        o matches Output::Delete(n) ==> msg_of::<P, C>(o) == Msg::<P, C>::DeleteContact(n),
{
}

/// A row's request to receive from a contact into a folder makes the page
/// start a receiving transfer from that contact into that folder, reading
/// the contact's key; a request to send makes it start a sending one.
pub proof fn law_row_request_starts_matching_transfer<P, C: Clone>(
    o: Output<P>,
    p: ContactPage<C>,
    q: ContactPage<C>,
    effect: Effect<P, C>,
    reqs: Seq<RequestView>,
)
    requires
        page_stepped(p, msg_of::<P, C>(o), q, effect, reqs),
    ensures
        o matches Output::Receive(n, path) ==> (effect matches Effect::StartTransfer(
            TransferType::Receive(t),
            _,
        ) && t.path == path && t.passphrase == PassphraseMethod::Contact(n) && t.save is None),
        o matches Output::Send(n, path) ==> (effect matches Effect::StartTransfer(
            TransferType::Send(t),
            _,
        ) && t.path == path && t.passphrase == PassphraseMethod::Contact(n) && t.save is None),
{
}

/// Contacts handed to a page that already holds some leave them in place;
/// a page without contacts takes those handed over; an absence of contacts
/// changes nothing.
pub proof fn law_held_contacts_stay<P, C: Clone>(
    p: ContactPage<C>,
    contacts: Option<C>,
    downloads_known: bool,
    q: ContactPage<C>,
    effect: Effect<P, C>,
    reqs: Seq<RequestView>,
)
    requires
        page_stepped(p, Msg::ContactsReady { contacts, downloads_known }, q, effect, reqs),
    ensures
        p.contacts is Some ==> q.contacts == p.contacts,
        p.contacts is None ==> q.contacts == contacts,
        q.current_contact == p.current_contact,
        q.transfer_running == p.transfer_running,
        reqs.len() <= 1,
        (reqs.len() == 1) <==> (contacts is Some && !downloads_known),
{
}

} // verus!
