use aporture_client::args::{ContactCommand, MethodChoice, PairCommand, ReceiveMethod, SendMethod};
use aporture_client::contacts::ContactBook;
use aporture_client::passphrase::{get, is_yes, text_bytes, Method, PassphraseError, PASSPHRASE_WORD_COUNT};

#[test]
fn direct_passphrase_is_its_bytes() {
    let r = get(Method::Direct("hola mundo".to_string()), "unused");
    assert_eq!(r, Ok(b"hola mundo".to_vec()));
}

#[test]
fn direct_passphrase_is_utf8_encoded() {
    let r = get(Method::Direct("ñandú".to_string()), "");
    assert_eq!(r, Ok("ñandú".as_bytes().to_vec()));
    assert_eq!(text_bytes("€"), vec![0xE2, 0x82, 0xAC]);
}

#[test]
fn generated_passphrase_is_used_for_generate() {
    let r = get(Method::Generate, "alpha-beta-gamma");
    assert_eq!(r, Ok(b"alpha-beta-gamma".to_vec()));
    assert_eq!(PASSPHRASE_WORD_COUNT, 3);
}

#[test]
fn contact_passphrase_is_the_saved_key() {
    let mut book = ContactBook::empty();
    book.add("alice".to_string(), vec![4, 5, 6], 1);
    assert_eq!(get(Method::Contact("alice", &book), ""), Ok(vec![4, 5, 6]));
}

#[test]
fn unknown_contact_is_an_error() {
    let book = ContactBook::empty();
    let r = get(Method::Contact("bob", &book), "");
    assert_eq!(r, Err(PassphraseError::ContactNotFound("bob".to_string())));
    assert_eq!(r.unwrap_err().message(), "Contact bob not found");
}

#[test]
fn saved_contact_after_transfer_gives_its_key() {
    let mut book = ContactBook::empty();
    book.add("used".to_string(), vec![1], 1);
    book.replace("friend".to_string(), Some("used".to_string()), vec![8, 8], 2);
    assert_eq!(get(Method::Contact("friend", &book), ""), Ok(vec![8, 8]));
    assert!(get(Method::Contact("used", &book), "").is_err());
}

#[test]
fn yes_answers() {
    assert!(is_yes(b'y'));
    assert!(is_yes(b'Y'));
    assert!(!is_yes(b'n'));
    assert!(!is_yes(b'\n'));
}

#[test]
fn send_method_prefers_the_passphrase() {
    let m = SendMethod { passphrase: Some("p".to_string()), contact: Some("c".to_string()) };
    assert_eq!(m.choice(), MethodChoice::Direct("p".to_string()));
    let m = SendMethod { passphrase: None, contact: Some("c".to_string()) };
    assert_eq!(m.choice(), MethodChoice::Contact("c".to_string()));
    let m = SendMethod { passphrase: None, contact: None };
    assert_eq!(m.choice(), MethodChoice::Generate);
}

#[test]
fn receive_method_choice() {
    let m = ReceiveMethod { passphrase: Some("p".to_string()), contact: None };
    assert_eq!(m.choice(), MethodChoice::Direct("p".to_string()));
    let m = ReceiveMethod { passphrase: None, contact: Some("c".to_string()) };
    assert_eq!(m.choice(), MethodChoice::Contact("c".to_string()));
}

#[test]
fn pair_command_choice() {
    let start = PairCommand::Start { name: "n".to_string(), passphrase: None };
    assert_eq!(start.choice(), MethodChoice::Generate);
    assert!(start.starts());
    assert_eq!(start.name(), "n");
    let start = PairCommand::Start { name: "n".to_string(), passphrase: Some("q".to_string()) };
    assert_eq!(start.choice(), MethodChoice::Direct("q".to_string()));
    let complete = PairCommand::Complete { name: "m".to_string(), passphrase: "w".to_string() };
    assert_eq!(complete.choice(), MethodChoice::Direct("w".to_string()));
    assert!(!complete.starts());
    assert_eq!(complete.name(), "m");
}

#[test]
fn contact_commands_carry_the_name() {
    let c = ContactCommand::Delete { name: "x".to_string() };
    assert!(matches!(c, ContactCommand::Delete { ref name } if name == "x"));
    assert!(matches!(ContactCommand::List, ContactCommand::List));
}
