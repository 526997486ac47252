//! Turning the way the user chose to pair into the passphrase bytes that
//! the pairing protocol is started with.

use vstd::prelude::*;
use vstd::utf8::encode_utf8;
use crate::contacts::{is_replaced, ContactBook};

verus! {

/// Number of words in a generated passphrase.
pub const PASSPHRASE_WORD_COUNT: usize = 3;

/// How the passphrase for a pairing is obtained.
pub enum Method<'a> {
    /// A passphrase typed by the user.
    Direct(String),
    /// A passphrase of random words, shown to the user to share.
    Generate,
    /// The key saved for a contact.
    Contact(&'a str, &'a ContactBook),
}

/// The passphrase could not be obtained.
#[derive(Debug, PartialEq, Eq)]
pub enum PassphraseError {
    /// No contact is saved under this name.
    ContactNotFound(String),
}

impl PassphraseError {
    /// The sentence reported to the user.
    pub fn message(&self) -> (r: String)
        ensures
            match self {
                PassphraseError::ContactNotFound(name) => r@ == "Contact "@ + name@
                    + " not found"@,
            },
    {
        match self {
            PassphraseError::ContactNotFound(name) => {
                let mut r = String::from_str("Contact ");
                r.append(name.as_str());
                r.append(" not found");
                proof {
                    reveal_strlit("Contact ");
                    reveal_strlit(" not found");
                }
                r
            },
        }
    }
}

/// The passphrase that pairing with the contact `name` uses: the key saved
/// for it.
pub open spec fn contact_passphrase(book: &ContactBook, name: Seq<char>) -> Option<Seq<u8>> {
    match book.entry(name) {
        Some(e) => Some(e.0),
        None => None,
    }
}

/// The UTF-8 bytes of a text.
pub fn text_bytes(s: &str) -> (r: Vec<u8>)
    ensures
        r@ == encode_utf8(s@),
{
    vstd::slice::slice_to_vec(s.as_bytes())
}

/// The passphrase bytes for `method`. `generated` is the random
/// passphrase drawn for [`Method::Generate`]; it is not used otherwise.
pub fn get(method: Method<'_>, generated: &str) -> (r: Result<Vec<u8>, PassphraseError>)
    ensures
        match method {
            Method::Direct(p) => r matches Ok(b) && b@ == encode_utf8(p@),
            Method::Generate => r matches Ok(b) && b@ == encode_utf8(generated@),
            Method::Contact(name, book) => match contact_passphrase(book, name@) {
                Some(k) => r matches Ok(b) && b@ == k,
                None => r matches Err(PassphraseError::ContactNotFound(n)) && n@ == name@,
            },
        },
{
    match method {
        Method::Direct(passphrase) => Ok(text_bytes(passphrase.as_str())),
        Method::Generate => Ok(text_bytes(generated)),
        Method::Contact(name, contacts) => match contacts.get(name) {
            Some(key) => Ok(key),
            None => Err(PassphraseError::ContactNotFound(name.to_owned())),
        },
    }
}

/// Whether the byte typed at a yes/no prompt is a "yes" (`y` or `Y`).
pub fn is_yes(answer: u8) -> (r: bool)
    ensures
        r == (answer == 0x79u8 || answer == 0x59u8),
{
    answer == 0x79u8 || answer == 0x59u8
}

/// A contact saved at the end of a transfer (renaming the contact that was
/// used, if any) is afterwards paired with using exactly the key that was
/// saved.
pub proof fn law_saved_contact_gives_its_key(
    before: &ContactBook,
    after: &ContactBook,
    name: Seq<char>,
    previous: Option<Seq<char>>,
    key: Seq<u8>,
    added: i64,
)
    requires
        is_replaced(before, after, name, previous, key, added),
    ensures
        contact_passphrase(after, name) == Some(key),
{
    assert(after.entry(name) == Some((key, added)));
}

} // verus!
