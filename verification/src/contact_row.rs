//! One saved contact on the contacts page of the graphical client, from
//! which a file is sent to, or received from, that contact.

use vstd::prelude::*;

verus! {

/// An input of a contact row; `P` is a file-system path.
pub enum Msg<P> {
    SendFilePickerOpen,
    /// The file or folder to send was picked.
    SendFilePickerClosed(P),
    SendFile,
    ReceiveFilePickerOpen,
    /// The folder to receive into was picked.
    ReceiveFilePickerClosed(P),
    ReceiveFile,
    Delete,
    Expand,
}

/// What a contact row asks of the contacts page.
pub enum Output<P> {
    /// Send this file to the contact.
    Send(String, P),
    /// Pick what to send to the contact.
    SendFilePicker(String),
    /// Pick where to receive from the contact.
    ReceiveFilePicker(String),
    /// Receive from the contact into this folder.
    Receive(String, P),
    /// Delete the contact.
    Delete(String),
}

/// What a contact row does after an input: nothing more, hand a request to
/// the contacts page, or feed itself a further input.
pub enum Reaction<P> {
    Nothing,
    Emit(Output<P>),
    Input(Msg<P>),
}

/// One saved contact on the contacts page: its name, when it was added
/// (seconds since the epoch), what is picked to send, where to receive,
/// and whether the row is unfolded.
pub struct Contact<P> {
    pub name: String,
    pub added: i64,
    pub path: Option<P>,
    pub destination: Option<P>,
    pub expanded: bool,
}

/// Every copy of a `P` equals what it was copied from (as for plain paths).
pub open spec fn clones_exactly<P: Clone>() -> bool {
    forall|a: P, b: P| #[trigger] cloned::<P>(a, b) ==> a == b
}

/// `q` is what cloning the path `p` gave, if there is one.
pub open spec fn cloned_option<P: Clone>(p: Option<P>, q: Option<P>) -> bool {
    match p {
        Some(a) => q matches Some(b) && cloned::<P>(a, b),
        None => q is None,
    }
}

/// How a row `c` answers `input`, becoming `d` and reacting with `r`.
/// Sending (receiving) with a path picked hands the page a copy of the
/// path; with none picked, the row feeds itself the input that opens the
/// picker. Opening a picker and deleting are requests to the page; a
/// picked path is kept; unfolding flips.
pub open spec fn stepped<P: Clone>(c: Contact<P>, input: Msg<P>, d: Contact<P>, r: Reaction<P>) -> bool {
    match input {
        Msg::SendFile => d == c && match c.path {
            Some(p) => r matches Reaction::Emit(Output::Send(n, q)) && n@ == c.name@ && cloned::<P>(p, q),
            None => r == Reaction::Input(Msg::<P>::SendFilePickerOpen),
        },
        Msg::ReceiveFile => d == c && match c.destination {
            Some(p) => r matches Reaction::Emit(Output::Receive(n, q)) && n@ == c.name@ && cloned::<P>(p, q),
            None => r == Reaction::Input(Msg::<P>::ReceiveFilePickerOpen),
        },
        Msg::SendFilePickerOpen => d == c && (r matches Reaction::Emit(Output::SendFilePicker(n))
            && n@ == c.name@),
        Msg::ReceiveFilePickerOpen => d == c && (r matches Reaction::Emit(Output::ReceiveFilePicker(n))
            && n@ == c.name@),
        Msg::SendFilePickerClosed(p) => r is Nothing && d == (Contact { path: Some(p), ..c }),
        Msg::ReceiveFilePickerClosed(p) => r is Nothing && d == (Contact { destination: Some(p), ..c }),
        Msg::Expand => r is Nothing && d == (Contact { expanded: !c.expanded, ..c }),
        Msg::Delete => d == c && (r matches Reaction::Emit(Output::Delete(n)) && n@ == c.name@),
    }
}

impl<P: Clone> Contact<P> {
    /// A folded row with nothing picked to send; `destination` is the
    /// default folder to receive into, if known.
    pub fn new(name: String, added: i64, destination: Option<P>) -> (r: Self)
        ensures
            r == (Contact { name, added, path: None, destination, expanded: false }),
    {
        Contact { name, added, path: None, destination, expanded: false }
    }

    /// Answers one input, as [`stepped`] says.
    pub fn step(&mut self, input: Msg<P>) -> (r: Reaction<P>)
        ensures
            stepped(*old(self), input, *final(self), r),
    {
        match input {
            Msg::SendFile => match &self.path {
                Some(p) => Reaction::Emit(Output::Send(self.name.clone(), p.clone())),
                None => Reaction::Input(Msg::SendFilePickerOpen),
            },
            Msg::ReceiveFile => match &self.destination {
                Some(p) => Reaction::Emit(Output::Receive(self.name.clone(), p.clone())),
                None => Reaction::Input(Msg::ReceiveFilePickerOpen),
            },
            Msg::SendFilePickerOpen => Reaction::Emit(Output::SendFilePicker(self.name.clone())),
            Msg::ReceiveFilePickerOpen => Reaction::Emit(
                Output::ReceiveFilePicker(self.name.clone()),
            ),
            Msg::SendFilePickerClosed(p) => {
                self.path = Some(p);
                Reaction::Nothing
            },
            Msg::ReceiveFilePickerClosed(p) => {
                self.destination = Some(p);
                Reaction::Nothing
            },
            Msg::Expand => {
                self.expanded = !self.expanded;
                Reaction::Nothing
            },
            Msg::Delete => Reaction::Emit(Output::Delete(self.name.clone())),
        }
    }
}

/// Once a file is picked, the send button hands the page a request to send
/// a copy of that very path to this contact (the path itself, where copies
/// of paths are exact).
pub proof fn law_send_after_pick<P: Clone>(
    c0: Contact<P>,
    p: P,
    c1: Contact<P>,
    r1: Reaction<P>,
    c2: Contact<P>,
    r2: Reaction<P>,
)
    requires
        stepped(c0, Msg::SendFilePickerClosed(p), c1, r1),
        stepped(c1, Msg::SendFile, c2, r2),
    ensures
        r1 is Nothing,
        r2 matches Reaction::Emit(Output::Send(n, q)) && n@ == c0.name@ && cloned::<P>(p, q) && (
        clones_exactly::<P>() ==> q == p),
        c2 == c1,
{
}

/// Once a folder is picked, the receive button hands the page a request to
/// receive from this contact into a copy of that very path (the path
/// itself, where copies of paths are exact).
pub proof fn law_receive_after_pick<P: Clone>(
    c0: Contact<P>,
    p: P,
    c1: Contact<P>,
    r1: Reaction<P>,
    c2: Contact<P>,
    r2: Reaction<P>,
)
    requires
        stepped(c0, Msg::ReceiveFilePickerClosed(p), c1, r1),
        stepped(c1, Msg::ReceiveFile, c2, r2),
    ensures
        r1 is Nothing,
        r2 matches Reaction::Emit(Output::Receive(n, q)) && n@ == c0.name@ && cloned::<P>(p, q) && (
        clones_exactly::<P>() ==> q == p),
        c2 == c1,
{
}

/// Unfolding a row twice leaves it as it was.
pub proof fn law_expand_twice<P: Clone>(
    c0: Contact<P>,
    c1: Contact<P>,
    r1: Reaction<P>,
    c2: Contact<P>,
    r2: Reaction<P>,
)
    requires
        stepped(c0, Msg::Expand, c1, r1),
        stepped(c1, Msg::Expand, c2, r2),
    ensures
        c2 == c0,
        r1 is Nothing && r2 is Nothing,
{
}

/// Sending with nothing picked emits nothing yet: the row opens the file
/// picker through its own input, and that asks the page for a picker for
/// this contact.
pub proof fn law_send_without_pick_opens_picker<P: Clone>(
    c0: Contact<P>,
    c1: Contact<P>,
    r1: Reaction<P>,
    c2: Contact<P>,
    r2: Reaction<P>,
)
    requires
        c0.path is None,
        stepped(c0, Msg::SendFile, c1, r1),
        stepped(c1, Msg::SendFilePickerOpen, c2, r2),
    ensures
        r1 == Reaction::Input(Msg::<P>::SendFilePickerOpen),
        r2 matches Reaction::Emit(Output::SendFilePicker(n)) && n@ == c0.name@,
        c2 == c0,
{
}

/// Copies of paths held as text are exact.
pub proof fn lemma_text_paths_clone_exactly()
    ensures
        clones_exactly::<String>(),
{
}

/// For paths held as text, a picked file is sent as that very path, and a
/// picked folder is received into that very path.
pub proof fn law_pick_then_transfer_text(
    c0: Contact<String>,
    p: String,
    c1: Contact<String>,
    r1: Reaction<String>,
    c2: Contact<String>,
    r2: Reaction<String>,
    c3: Contact<String>,
    r3: Reaction<String>,
    c4: Contact<String>,
    r4: Reaction<String>,
)
    requires
        stepped(c0, Msg::SendFilePickerClosed(p), c1, r1),
        stepped(c1, Msg::SendFile, c2, r2),
        stepped(c0, Msg::ReceiveFilePickerClosed(p), c3, r3),
        stepped(c3, Msg::ReceiveFile, c4, r4),
    ensures
        r2 matches Reaction::Emit(Output::Send(n, q)) && n@ == c0.name@ && q == p,
        r4 matches Reaction::Emit(Output::Receive(n, q)) && n@ == c0.name@ && q == p,
{
    lemma_text_paths_clone_exactly();
    law_send_after_pick(c0, p, c1, r1, c2, r2);
    law_receive_after_pick(c0, p, c3, r3, c4, r4);
}

/// The contact a request of a row is about.
pub open spec fn requested_contact<P>(o: Output<P>) -> String {
    match o {
        Output::Send(n, _) => n,
        Output::Receive(n, _) => n,
        Output::SendFilePicker(n) => n,
        Output::ReceiveFilePicker(n) => n,
        Output::Delete(n) => n,
    }
}

/// A row only ever asks about its own contact, and each request answers the
/// button of the same kind: sending asks to send (or, with nothing picked,
/// opens the file picker of the row), receiving asks to receive (or opens
/// the folder picker), the picker buttons ask for pickers of their own
/// kind, the delete button asks to delete; picking and unfolding ask for
/// nothing. The row's contact and date never change.
pub proof fn law_row_reaction_matches_input<P: Clone>(
    c: Contact<P>,
    input: Msg<P>,
    d: Contact<P>,
    r: Reaction<P>,
)
    requires
        stepped(c, input, d, r),
    ensures
        d.name == c.name && d.added == c.added,
        r matches Reaction::Emit(o) ==> {
            &&& requested_contact(o)@ == c.name@
            &&& (o is Send) <==> (input is SendFile)
            &&& (o is Receive) <==> (input is ReceiveFile)
            &&& (o is SendFilePicker) <==> (input is SendFilePickerOpen)
            &&& (o is ReceiveFilePicker) <==> (input is ReceiveFilePickerOpen)
            &&& (o is Delete) <==> (input is Delete)
        },
        r matches Reaction::Input(m) ==> (input is SendFile && c.path is None
            && m is SendFilePickerOpen) || (input is ReceiveFile && c.destination is None
            && m is ReceiveFilePickerOpen),
        (r is Nothing) <==> (input is SendFilePickerClosed || input is ReceiveFilePickerClosed
            || input is Expand),
{
}

} // verus!
