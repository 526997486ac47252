//! The choice between sending a file and sending a folder.

use vstd::prelude::*;

verus! {

/// What to pick after the user chose between sending a file and a folder.
#[derive(Debug, Clone, Copy, PartialEq, Eq, Structural)]
pub enum PickKind {
    File,
    Folder,
}

/// The answer "file" picks a file, "folder" a folder; any other answer
/// (the dialog was dismissed) picks nothing.
pub fn pick_kind(response: &str) -> (r: Option<PickKind>)
    ensures
        r == if response@ == "file"@ {
            Some(PickKind::File)
        } else if response@ == "folder"@ {
            Some(PickKind::Folder)
        } else {
            None::<PickKind>
        },
{
    let answer = response.to_owned();
    if answer == String::from_str("file") {
        Some(PickKind::File)
    } else if answer == String::from_str("folder") {
        Some(PickKind::Folder)
    } else {
        None
    }
}

} // verus!
