use aporture_client::app::{App as MainWindow, Msg as WindowInput, Page};
use aporture_client::confirmation::{is_confirmed, Confirmation};
use aporture_client::file_chooser::{pick_kind, PickKind};
use aporture_client::holder::{
    Action as UnlockAction, FieldMarks, Holder as UnlockDialog, Msg as UnlockInput,
    Notice as UnlockNotice,
};
use aporture_client::preferences::{
    address_field_text, Action as PreferencesAction, Msg as PreferencesInput,
    Notice as PreferencesNotice, Preferences as PreferencesDialog, Settings,
};

#[test]
fn contacts_page_waits_for_contacts() {
    let mut w = MainWindow::new();
    assert_eq!(w.current, Page::Send);
    let e = w.step(WindowInput::PageSwitch { visible: Some(Page::Contacts) });
    assert!(e.ask_contacts);
    assert_eq!(w.current, Page::Send);
    let e = w.step(WindowInput::Contacts { delivered: false, visible: Some(Page::Contacts) });
    assert_eq!(e.show, Some(Page::Send));
    assert!(e.broadcast_contacts);
    assert_eq!(w.current, Page::Send);
    let e = w.step(WindowInput::PageSwitch { visible: Some(Page::Contacts) });
    assert!(e.ask_contacts);
    let e = w.step(WindowInput::Contacts { delivered: true, visible: Some(Page::Contacts) });
    assert_eq!(e.show, None);
    assert!(w.contacts_loaded);
    assert_eq!(w.current, Page::Contacts);
}

#[test]
fn other_pages_switch_freely() {
    let mut w = MainWindow::new();
    let e = w.step(WindowInput::PageSwitch { visible: Some(Page::Receive) });
    assert!(!e.ask_contacts);
    assert_eq!(w.current, Page::Receive);
    let e = w.step(WindowInput::ContactsRequest);
    assert!(e.ask_contacts);
    assert_eq!(Page::Contacts.name(), "Contacts");
    assert_eq!(Page::Send.name(), "Send");
    assert_eq!(Page::Receive.name(), "Receive");
}

#[test]
fn unlock_dialog_creates_with_agreeing_passwords() {
    let mut d = UnlockDialog::new();
    let e = d.step(&UnlockInput::Get);
    assert_eq!(e.action, UnlockAction::Nothing);
    assert!(d.visible);
    let e = d.step(&UnlockInput::Return {
        database_exists: false,
        first: "a".to_string(),
        second: "b".to_string(),
    });
    assert_eq!(e.marks, FieldMarks::MarkNew);
    assert_eq!(e.notice, UnlockNotice::PasswordsDiffer);
    assert_eq!(e.notice.text(), "The passwords do not match");
    let e = d.step(&UnlockInput::Return {
        database_exists: false,
        first: "a".to_string(),
        second: "a".to_string(),
    });
    assert_eq!(e.action, UnlockAction::Create);
    assert_eq!(e.marks, FieldMarks::ClearNew);
    let e = d.step(&UnlockInput::Opened { success: true, database_exists: false });
    assert_eq!(e.action, UnlockAction::Deliver);
    assert!(!d.visible);
    assert!(d.loaded);
    let e = d.step(&UnlockInput::Get);
    assert_eq!(e.action, UnlockAction::Deliver);
}

#[test]
fn unlock_dialog_wrong_password() {
    let mut d = UnlockDialog::new();
    let e = d.step(&UnlockInput::Return {
        database_exists: true,
        first: String::new(),
        second: String::new(),
    });
    assert_eq!(e.action, UnlockAction::Open);
    assert_eq!(e.marks, FieldMarks::ClearExisting);
    let e = d.step(&UnlockInput::Opened { success: false, database_exists: true });
    assert_eq!(e.marks, FieldMarks::MarkExisting);
    assert_eq!(e.notice.text(), "Wrong password, try again");
    let e = d.step(&UnlockInput::Hide);
    assert_eq!(e.action, UnlockAction::Cancel);
    assert!(!d.visible);
}

type Addr = [u8; 4];

fn settings(address: Addr, port: u16, rest: u32) -> Settings<Addr, u32> {
    Settings { server_address: address, server_port: port, rest }
}

#[test]
fn preferences_flow() {
    let mut p: PreferencesDialog<Addr, u32> = PreferencesDialog::new();
    let e = p.step(PreferencesInput::Config(Some(settings([127, 0, 0, 1], 8765, 42))));
    assert!(matches!(e.action, PreferencesAction::ShowAddress([127, 0, 0, 1], 8765)));
    p.step(PreferencesInput::Open);
    assert!(p.visible);
    let e = p.step(PreferencesInput::Return { typed: None });
    assert_eq!(e.notice, PreferencesNotice::NotAnAddress);
    assert!(e.mark_address);
    assert_eq!(e.notice.text(), "Not a valid ip address");
    let e = p.step(PreferencesInput::Return { typed: Some(([10, 0, 0, 2], 9000)) });
    match e.action {
        PreferencesAction::Persist(s) => {
            assert_eq!(s.server_address, [10, 0, 0, 2]);
            assert_eq!(s.server_port, 9000);
            assert_eq!(s.rest, 42);
        }
        _ => panic!("expected the settings to be saved"),
    }
    let e = p.step(PreferencesInput::Config(None));
    assert_eq!(e.notice.text(), "Invalid ip address");
    assert!(e.mark_address);
    let e = p.step(PreferencesInput::Config(Some(settings([10, 0, 0, 2], 9000, 42))));
    assert!(matches!(e.action, PreferencesAction::Saved));
    assert!(!p.visible);
    assert_eq!(p.config.map(|c| c.server_port), Some(8765));
    let e = p.step(PreferencesInput::EditServerAddress);
    assert!(matches!(e.action, PreferencesAction::Focus));
}

#[test]
fn address_field_shows_address_and_port() {
    assert_eq!(address_field_text("127.0.0.1", 8765), "127.0.0.1:8765");
    assert_eq!(address_field_text("::1", 0), "::1:0");
    assert_eq!(address_field_text("10.1.2.3", 65535), "10.1.2.3:65535");
    assert_eq!(address_field_text("h", 7), "h:7");
}

#[test]
fn confirmation_labels() {
    let mut c = Confirmation::new("delete everything".to_string());
    assert_eq!(c.confirm_label(), "Yes");
    assert_eq!(c.deny_label(), "No");
    assert_eq!(c.heading_text(), "You are about to delete everything");
    c.confirm("Delete").deny("Cancel");
    assert_eq!(c.confirm_label(), "Delete");
    assert_eq!(c.deny_label(), "Cancel");
    assert!(is_confirmed("yes"));
    assert!(!is_confirmed("no"));
}

#[test]
fn file_or_folder_choice() {
    assert_eq!(pick_kind("file"), Some(PickKind::File));
    assert_eq!(pick_kind("folder"), Some(PickKind::Folder));
    assert_eq!(pick_kind("close"), None);
}
