use aporture_client::app::Request;
use aporture_client::contact_page::{
    after_delete_saved, answer_delete, rows_for, ContactPage, DeleteFollowUp, Effect as PageEffect,
    Msg as PageInput,
};
use aporture_client::contact_row::{
    Contact as ContactRow, Msg as RowInput, Output as RowOutput, Reaction,
};
use aporture_client::contacts::ContactBook;
use aporture_client::peer::{ContactAction, Error as TransferError, PassphraseMethod, TransferType};
use aporture_client::toaster::Severity;

type Page = ContactPage<u32>;
type Input = PageInput<String, u32>;

#[test]
fn row_opens_the_picker_before_sending() {
    let mut row: ContactRow<String> = ContactRow::new("ana".to_string(), 1_700_000_000, None);
    let r = row.step(RowInput::SendFile);
    assert!(matches!(r, Reaction::Input(RowInput::SendFilePickerOpen)));
    let r = row.step(RowInput::SendFilePickerOpen);
    assert!(matches!(r, Reaction::Emit(RowOutput::SendFilePicker(ref n)) if n == "ana"));
    assert!(matches!(row.step(RowInput::SendFilePickerClosed("/tmp/a.txt".to_string())), Reaction::Nothing));
    let r = row.step(RowInput::SendFile);
    assert!(matches!(r, Reaction::Emit(RowOutput::Send(ref n, ref p)) if n == "ana" && p == "/tmp/a.txt"));
}

#[test]
fn row_receives_into_its_destination() {
    let mut row = ContactRow::new("ana".to_string(), 0, Some("/dl".to_string()));
    let r = row.step(RowInput::ReceiveFile);
    assert!(matches!(r, Reaction::Emit(RowOutput::Receive(ref n, ref p)) if n == "ana" && p == "/dl"));
    row.step(RowInput::ReceiveFilePickerClosed("/other".to_string()));
    let r = row.step(RowInput::ReceiveFile);
    assert!(matches!(r, Reaction::Emit(RowOutput::Receive(_, ref p)) if p == "/other"));
    let mut row: ContactRow<String> = ContactRow::new("bo".to_string(), 0, None);
    let r = row.step(RowInput::ReceiveFile);
    assert!(matches!(r, Reaction::Input(RowInput::ReceiveFilePickerOpen)));
    let r = row.step(RowInput::ReceiveFilePickerOpen);
    assert!(matches!(r, Reaction::Emit(RowOutput::ReceiveFilePicker(ref n)) if n == "bo"));
}

#[test]
fn row_expands_and_deletes() {
    let mut row: ContactRow<String> = ContactRow::new("ana".to_string(), 0, None);
    assert!(!row.expanded);
    row.step(RowInput::Expand);
    assert!(row.expanded);
    row.step(RowInput::Expand);
    assert!(!row.expanded);
    assert!(matches!(row.step(RowInput::Delete), Reaction::Emit(RowOutput::Delete(ref n)) if n == "ana"));
}

#[test]
fn row_requests_become_page_inputs() {
    let i: Input = PageInput::from(RowOutput::Delete("ana".to_string()));
    assert!(matches!(i, PageInput::DeleteContact(ref n) if n == "ana"));
    let i: Input = PageInput::from(RowOutput::Send("ana".to_string(), "/f".to_string()));
    assert!(matches!(i, PageInput::SendFile(ref n, ref p) if n == "ana" && p == "/f"));
    let i: Input = PageInput::from(RowOutput::ReceiveFilePicker("ana".to_string()));
    assert!(matches!(i, PageInput::ReceiverPickerOpen(_)));
}

#[test]
fn rows_are_built_from_the_saved_contacts() {
    let mut book = ContactBook::empty();
    book.add("ana".to_string(), vec![1], 100);
    book.add("bo".to_string(), vec![2], 200);
    let rows = rows_for(&book, &Some("/dl".to_string()));
    assert_eq!(rows.len(), 2);
    let ana = rows.iter().find(|r| r.name == "ana").unwrap();
    assert_eq!(ana.added, 100);
    assert_eq!(ana.destination, Some("/dl".to_string()));
    assert_eq!(ana.path, None);
    assert!(!ana.expanded);
    let bo = rows.iter().find(|r| r.name == "bo").unwrap();
    assert_eq!(bo.added, 200);
    let rows = rows_for::<String>(&book, &None);
    assert!(rows.iter().all(|r| r.destination.is_none()));
    assert!(rows_for::<String>(&ContactBook::empty(), &None).is_empty());
}

#[test]
fn contacts_page_keeps_and_shows_contacts_and_warns_without_downloads() {
    let mut page: Page = ContactPage::new();
    let (e, r) = page.step::<String>(PageInput::ContactsReady { contacts: None, downloads_known: true });
    assert!(matches!(e, PageEffect::Nothing));
    assert!(r.is_empty());
    assert_eq!(page.contacts, None);
    let (e, r) = page.step::<String>(PageInput::ContactsReady { contacts: Some(1), downloads_known: false });
    assert!(matches!(e, PageEffect::ShowContacts));
    assert_eq!(
        r,
        vec![Request::Toast(
            "Could not find default receive directory, please pick one before sending".to_string(),
            Severity::Warn
        )]
    );
    assert_eq!(page.contacts, Some(1));
    let (e, r) = page.step::<String>(PageInput::ContactsReady { contacts: Some(2), downloads_known: true });
    assert!(matches!(e, PageEffect::ShowContacts));
    assert!(r.is_empty());
    assert_eq!(page.contacts, Some(1));
}

#[test]
fn contacts_page_routes_picked_paths() {
    let mut page: Page = ContactPage::new();
    page.step::<String>(PageInput::ContactsReady { contacts: Some(1), downloads_known: true });
    let (e, _) = page.step::<String>(PageInput::SenderPickerOpen("ana".to_string()));
    assert!(matches!(e, PageEffect::ChooseSendKind));
    let (e, _) = page.step(PageInput::SenderPickerResponse("/f".to_string()));
    assert!(matches!(e, PageEffect::RowSendPath(ref n, ref p) if n == "ana" && p == "/f"));
    let (e, _) = page.step::<String>(PageInput::ReceiverPickerOpen("bo".to_string()));
    assert!(matches!(e, PageEffect::OpenReceivePicker));
    let (e, _) = page.step(PageInput::ReceiverPickerResponse("/d".to_string()));
    assert!(matches!(e, PageEffect::RowReceivePath(ref n, ref p) if n == "bo" && p == "/d"));
}

#[test]
fn contacts_page_transfers_and_reports() {
    let mut page: Page = ContactPage::new();
    page.step::<String>(PageInput::ContactsReady { contacts: Some(9), downloads_known: true });
    let (e, _) = page.step(PageInput::SendFile("ana".to_string(), "/f".to_string()));
    match e {
        PageEffect::StartTransfer(TransferType::Send(params), handle) => {
            assert!(matches!(params.passphrase, PassphraseMethod::Contact(ref n) if n == "ana"));
            assert_eq!(params.path, "/f");
            assert!(params.save.is_none());
            assert_eq!(handle, 9);
        }
        _ => panic!("expected a transfer to start"),
    }
    assert!(page.transfer_running);
    let (_, r) = page.step::<String>(PageInput::AportureFinished(Ok(ContactAction::PeerRefused)));
    assert_eq!(
        r,
        vec![
            Request::Toast("Transfer completed!".to_string(), Severity::Success),
            Request::Toast("Peer refused to save contact".to_string(), Severity::Warn)
        ]
    );
    assert!(!page.transfer_running);
    let (e, _) = page.step(PageInput::ReceiveFile("ana".to_string(), "/d".to_string()));
    assert!(matches!(e, PageEffect::StartTransfer(TransferType::Receive(_), 9)));
    let (_, r) = page.step::<String>(PageInput::AportureFinished(Err(TransferError::NoPeer)));
    assert_eq!(
        r,
        vec![Request::Toast("The peer sending the file has not arrived yet".to_string(), Severity::Error)]
    );
}

#[test]
fn contacts_page_confirms_deletion() {
    let mut page: Page = ContactPage::new();
    page.step::<String>(PageInput::ContactsReady { contacts: Some(1), downloads_known: true });
    let (e, _) = page.step::<String>(PageInput::DeleteContact("ana".to_string()));
    match e {
        PageEffect::AskDelete(n, c) => {
            assert_eq!(n, "ana");
            assert_eq!(c.heading_text(), "You are about to delete contact \"ana\"");
            assert_eq!(c.confirm_label(), "Delete");
            assert_eq!(c.deny_label(), "Cancel");
        }
        _ => panic!("expected a confirmation"),
    }
    let (e, _) = page.step::<String>(PageInput::DeleteContactUI("ana".to_string()));
    assert!(matches!(e, PageEffect::RemoveRow(ref n) if n == "ana"));
    assert!(matches!(page.step::<String>(PageInput::Ignore).0, PageEffect::Nothing));
}

#[test]
fn answering_the_deletion_question() {
    let mut book = ContactBook::empty();
    book.add("ana".to_string(), vec![1], 0);
    book.add("bo".to_string(), vec![2], 0);
    assert!(!answer_delete(&mut book, "ana", "cancel"));
    assert!(book.contains("ana"));
    assert!(answer_delete(&mut book, "ana", "yes"));
    assert!(!book.contains("ana"));
    assert!(book.contains("bo"));
}

#[test]
fn deletion_follow_up() {
    assert!(matches!(after_delete_saved("ana".to_string(), true), DeleteFollowUp::RemoveRow(ref n) if n == "ana"));
    match after_delete_saved("ana".to_string(), false) {
        DeleteFollowUp::Notify(r) => {
            assert_eq!(r, Request::Toast("Could not delete contact".to_string(), Severity::Warn))
        }
        _ => panic!("expected a notice"),
    }
}

#[test]
fn picked_path_reaches_the_row_that_opened_the_picker() {
    let mut page: Page = ContactPage::new();
    page.step::<String>(PageInput::ContactsReady { contacts: Some(1), downloads_known: true });
    page.step::<String>(PageInput::ReceiverPickerOpen("bo".to_string()));
    page.step::<String>(PageInput::DeleteContactUI("ana".to_string()));
    page.step::<String>(PageInput::AportureFinished(Ok(ContactAction::NoOp)));
    page.step::<String>(PageInput::ContactsReady { contacts: Some(2), downloads_known: false });
    let (e, r) = page.step(PageInput::ReceiverPickerResponse("/in".to_string()));
    assert!(matches!(e, PageEffect::RowReceivePath(ref n, ref p) if n == "bo" && p == "/in"));
    assert!(r.is_empty());
}
