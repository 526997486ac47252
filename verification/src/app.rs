//! The main window of the graphical client: which page is shown, and the
//! requests the pages send it.

use vstd::prelude::*;
use crate::peer::{error_text, ContactAction, Error};
use crate::toaster::Severity;

verus! {

/// A page of the main window.
#[derive(Debug, Clone, Copy, PartialEq, Eq, Structural)]
pub enum Page {
    Send,
    Receive,
    Contacts,
}

/// The page names shown in the page switcher.
pub open spec fn page_name(p: Page) -> Seq<char> {
    match p {
        Page::Send => "Send"@,
        Page::Receive => "Receive"@,
        Page::Contacts => "Contacts"@,
    }
}

impl Page {
    /// The name of the page in the page switcher.
    pub fn name(&self) -> (r: &'static str)
        ensures
            r@ == page_name(*self),
    {
        match self {
            Page::Send => "Send",
            Page::Receive => "Receive",
            Page::Contacts => "Contacts",
        }
    }
}

/// An input of the main window.
#[derive(Debug, Clone, Copy, PartialEq, Eq, Structural)]
pub enum Msg {
    /// The contacts dialog answered; `delivered` tells whether it handed
    /// over the contacts. `visible` is the page shown at that moment.
    Contacts { delivered: bool, visible: Option<Page> },
    /// A page needs the contacts.
    ContactsRequest,
    /// The user switched to the page `visible`.
    PageSwitch { visible: Option<Page> },
}

/// What the main window does in answer to an input.
#[derive(Debug, Clone, Copy, PartialEq, Eq, Structural)]
pub struct Effects {
    /// Switch back to this page.
    pub show: Option<Page>,
    /// Hand the contacts (or their absence) to every page.
    pub broadcast_contacts: bool,
    /// Ask the contacts dialog for the contacts.
    pub ask_contacts: bool,
}

/// Which page is current and whether the contacts are open.
pub struct App {
    pub current: Page,
    pub contacts_loaded: bool,
}

pub open spec fn effects(show: Option<Page>, broadcast_contacts: bool, ask_contacts: bool) -> Effects {
    Effects { show, broadcast_contacts, ask_contacts }
}

/// How the main window answers an input. The contacts page can only be
/// reached once the contacts are open: switching to it first asks for
/// them, and if they do not come the window goes back to the page it was
/// on.
pub open spec fn next_app(w: App, input: Msg) -> (App, Effects) {
    match input {
        Msg::Contacts { delivered, visible } => {
            let loaded = w.contacts_loaded || delivered;
            if !loaded {
                (
                    App { current: w.current, contacts_loaded: false },
                    effects(Some(w.current), true, false),
                )
            } else {
                (
                    App {
                        current: match visible {
                            Some(p) => p,
                            None => w.current,
                        },
                        contacts_loaded: true,
                    },
                    effects(None, true, false),
                )
            }
        },
        Msg::ContactsRequest => (w, effects(None, false, true)),
        Msg::PageSwitch { visible } => match visible {
            None => (w, effects(None, false, false)),
            Some(p) => if p == w.current || w.contacts_loaded {
                (App { current: p, ..w }, effects(None, false, false))
            } else if p == Page::Contacts {
                (w, effects(None, false, true))
            } else {
                (App { current: p, ..w }, effects(None, false, false))
            },
        },
    }
}

impl App {
    /// The window opens on the send page, without contacts.
    pub fn new() -> (r: Self)
        ensures
            r.current == Page::Send,
            !r.contacts_loaded,
    {
        App { current: Page::Send, contacts_loaded: false }
    }

    /// Answers one input: see [`next_app`].
    pub fn step(&mut self, input: Msg) -> (r: Effects)
        ensures
            (*final(self), r) == next_app(*old(self), input),
    {
        match input {
            Msg::Contacts { delivered, visible } => {
                if delivered {
                    self.contacts_loaded = true;
                }
                if !self.contacts_loaded {
                    Effects {
                        show: Some(self.current),
                        broadcast_contacts: true,
                        ask_contacts: false,
                    }
                } else {
                    match visible {
                        Some(p) => {
                            self.current = p;
                        },
                        None => {},
                    }
                    Effects { show: None, broadcast_contacts: true, ask_contacts: false }
                }
            },
            Msg::ContactsRequest => Effects {
                show: None,
                broadcast_contacts: false,
                ask_contacts: true,
            },
            Msg::PageSwitch { visible } => {
                let quiet = Effects {
                    show: None,
                    broadcast_contacts: false,
                    ask_contacts: false,
                };
                match visible {
                    None => quiet,
                    Some(p) => if p == self.current || self.contacts_loaded {
                        self.current = p;
                        quiet
                    } else if p == Page::Contacts {
                        Effects { ask_contacts: true, ..quiet }
                    } else {
                        self.current = p;
                        quiet
                    },
                }
            },
        }
    }
}

/// The contacts page is never the current page while the contacts are
/// closed: this holds when the window opens and every input keeps it.
pub proof fn law_contacts_page_needs_contacts(w: App, input: Msg)
    requires
        w.current == Page::Contacts ==> w.contacts_loaded,
    ensures
        next_app(w, input).0.current == Page::Contacts ==> next_app(w, input).0.contacts_loaded,
{
}

/// Once open, the contacts stay open.
pub proof fn law_contacts_stay_open(w: App, input: Msg)
    requires
        w.contacts_loaded,
    ensures
        next_app(w, input).0.contacts_loaded,
{
}

/// What a page asks of the main window.
#[derive(Debug, PartialEq, Eq)]
pub enum Request {
    /// The saved contacts are needed (or changed).
    Contacts,
    /// Show a short notice.
    Toast(String, Severity),
}

/// A request, with its text as characters.
pub ghost enum RequestView {
    Contacts,
    Toast(Seq<char>, Severity),
}

impl View for Request {
    type V = RequestView;

    open spec fn view(&self) -> RequestView {
        match self {
            Request::Contacts => RequestView::Contacts,
            Request::Toast(t, s) => RequestView::Toast(t@, *s),
        }
    }
}

pub open spec fn views(r: Seq<Request>) -> Seq<RequestView> {
    r.map_values(|q: Request| q@)
}

fn toast(text: &str, severity: Severity) -> (r: Request)
    ensures
        r@ == RequestView::Toast(text@, severity),
{
    Request::Toast(text.to_owned(), severity)
}

/// The requests of the receive and contacts pages when a transfer ends:
/// a success is announced; a saved contact refreshes the contacts; a
/// refusal warns; a cancellation warns with its reason; another failure is
/// shown as an error.
pub open spec fn finished_requests_spec(result: Result<ContactAction, Error>) -> Seq<
    RequestView,
> {
    let done = RequestView::Toast("Transfer completed!"@, Severity::Success);
    match result {
        Ok(ContactAction::Added) => seq![done, RequestView::Contacts],
        Ok(ContactAction::PeerRefused) => seq![
            done,
            RequestView::Toast("Peer refused to save contact"@, Severity::Warn),
        ],
        Ok(ContactAction::NoOp) => seq![done],
        Err(Error::Cancel) => seq![
            RequestView::Toast(error_text(Error::Cancel), Severity::Warn),
        ],
        Err(e) => seq![RequestView::Toast(error_text(e), Severity::Error)],
    }
}

/// The requests of the send page when a transfer ends: nothing is
/// announced on success, and every failure is shown as an error.
pub open spec fn sender_finished_requests_spec(result: Result<ContactAction, Error>) -> Seq<
    RequestView,
> {
    match result {
        Ok(ContactAction::Added) => seq![RequestView::Contacts],
        Ok(ContactAction::PeerRefused) => seq![
            RequestView::Toast("Peer refused to save contact"@, Severity::Warn),
        ],
        Ok(ContactAction::NoOp) => seq![],
        Err(e) => seq![RequestView::Toast(error_text(e), Severity::Error)],
    }
}

/// See [`finished_requests_spec`].
pub fn finished_requests(result: &Result<ContactAction, Error>) -> (r: Vec<Request>)
    ensures
        views(r@) == finished_requests_spec(*result),
{
    let mut r: Vec<Request> = Vec::new();
    if result.is_ok() {
        r.push(toast("Transfer completed!", Severity::Success));
    }
    match result {
        Ok(ContactAction::Added) => r.push(Request::Contacts),
        Ok(ContactAction::PeerRefused) => r.push(
            toast("Peer refused to save contact", Severity::Warn),
        ),
        Ok(ContactAction::NoOp) => {},
        Err(e) => match e {
            Error::Cancel => r.push(toast(e.message(), Severity::Warn)),
            _ => r.push(toast(e.message(), Severity::Error)),
        },
    }
    proof {
        assert(views(r@) =~= finished_requests_spec(*result));
    }
    r
}

/// See [`sender_finished_requests_spec`].
pub fn sender_finished_requests(result: &Result<ContactAction, Error>) -> (r: Vec<Request>)
    ensures
        views(r@) == sender_finished_requests_spec(*result),
{
    let mut r: Vec<Request> = Vec::new();
    match result {
        Ok(ContactAction::Added) => r.push(Request::Contacts),
        Ok(ContactAction::PeerRefused) => r.push(
            toast("Peer refused to save contact", Severity::Warn),
        ),
        Ok(ContactAction::NoOp) => {},
        Err(e) => r.push(toast(e.message(), Severity::Error)),
    }
    proof {
        assert(views(r@) =~= sender_finished_requests_spec(*result));
    }
    r
}

/// Every answer of the contacts dialog, with or without the contacts, is
/// handed to every page, and nothing more is asked; the contacts are open
/// afterwards exactly when they were before or were just delivered.
pub proof fn law_contacts_answer_is_broadcast(w: App, delivered: bool, visible: Option<Page>)
    ensures
        next_app(w, Msg::Contacts { delivered, visible }).1.broadcast_contacts,
        !next_app(w, Msg::Contacts { delivered, visible }).1.ask_contacts,
        next_app(w, Msg::Contacts { delivered, visible }).0.contacts_loaded == (w.contacts_loaded
            || delivered),
{
}

/// How the end of a transfer is reported, on every page: a success is
/// announced first on the receive and contacts pages and not at all on the
/// send page, which otherwise reports the same; the contacts are refreshed
/// exactly when the peer was saved; a refusal is a warning; every failure is
/// one notice carrying its own sentence, a warning for a cancellation on
/// the receive and contacts pages and an error otherwise.
pub proof fn law_transfer_end_reports(result: Result<ContactAction, Error>)
    ensures
        result is Ok ==> finished_requests_spec(result) == seq![
            RequestView::Toast("Transfer completed!"@, Severity::Success),
        ] + sender_finished_requests_spec(result),
        finished_requests_spec(result).contains(RequestView::Contacts) <==> result == Ok::<
            ContactAction,
            Error,
        >(ContactAction::Added),
        sender_finished_requests_spec(result).contains(RequestView::Contacts) <==> result
            == Ok::<ContactAction, Error>(ContactAction::Added),
        result == Ok::<ContactAction, Error>(ContactAction::PeerRefused)
            ==> sender_finished_requests_spec(result) == seq![
            RequestView::Toast("Peer refused to save contact"@, Severity::Warn),
        ],
        result == Ok::<ContactAction, Error>(ContactAction::NoOp)
            ==> sender_finished_requests_spec(result).len() == 0,
        result matches Err(e) ==> sender_finished_requests_spec(result) == seq![
            RequestView::Toast(error_text(e), Severity::Error),
        ] && finished_requests_spec(result) == seq![
            RequestView::Toast(
                error_text(e),
                if e == Error::Cancel {
                    Severity::Warn
                } else {
                    Severity::Error
                },
            ),
        ],
{
    let f = finished_requests_spec(result);
    let g = sender_finished_requests_spec(result);
    if result is Ok {
        assert(f =~= seq![RequestView::Toast("Transfer completed!"@, Severity::Success)] + g);
    }
    if result == Ok::<ContactAction, Error>(ContactAction::Added) {
        assert(f[1] == RequestView::Contacts);
        assert(g[0] == RequestView::Contacts);
    } else {
        assert forall|i: int| 0 <= i < f.len() implies f[i] != RequestView::Contacts by {}
        assert forall|i: int| 0 <= i < g.len() implies g[i] != RequestView::Contacts by {}
    }
}

/// The contacts are asked for exactly when a page needs them, or when the
/// user turns to the contacts page while they are closed; the window then
/// stays where it was until they come, and goes back to that page if they
/// do not. Any other page, and any page once the contacts are open, is
/// reached at once.
pub proof fn law_contacts_asked_when_needed(w: App, input: Msg)
    ensures
        next_app(w, input).1.ask_contacts <==> (input is ContactsRequest || (input
            matches Msg::PageSwitch { visible } && visible == Some(Page::Contacts)
            && w.current != Page::Contacts && !w.contacts_loaded)),
        next_app(w, input).1.ask_contacts ==> next_app(w, input).0 == w,
        input matches Msg::PageSwitch { visible: Some(p) } ==> ((w.contacts_loaded || p
            != Page::Contacts) ==> next_app(w, input).0.current == p),
        input matches Msg::Contacts { delivered, .. } ==> (!delivered && !w.contacts_loaded
            ==> next_app(w, input).1.show == Some(w.current) && next_app(w, input).0 == w),
        input matches Msg::Contacts { delivered: true, visible } ==> next_app(w, input).1.show is None,
        input matches Msg::Contacts { delivered: true, visible: Some(p) } ==> next_app(w, input).0.current
            == p,
{
}

} // verus!
