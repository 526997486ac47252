//! The dialog that opens, or creates, the contacts database of the
//! graphical client.

use vstd::prelude::*;

verus! {

/// An input of the dialog that opens or creates the contacts database.
#[derive(Debug, Clone, PartialEq, Eq)]
pub enum Msg {
    /// "Enter" was pressed. `database_exists` tells whether a database is
    /// saved; `first` and `second` are the two passwords typed to create
    /// one.
    Return { database_exists: bool, first: String, second: String },
    /// A page wants the contacts.
    Get,
    /// The dialog is closed.
    Hide,
    /// Opening or creating the database ended, successfully or not.
    Opened { success: bool, database_exists: bool },
}

/// Password fields that are marked as wrong or cleared.
#[derive(Debug, Clone, Copy, PartialEq, Eq, Structural)]
pub enum FieldMarks {
    Untouched,
    /// The existing-database password field is cleared of the mark.
    ClearExisting,
    /// The two new-password fields are cleared of the mark.
    ClearNew,
    /// The existing-database password field is marked as wrong.
    MarkExisting,
    /// The two new-password fields are marked as wrong.
    MarkNew,
}

/// What the contacts dialog does.
#[derive(Debug, Clone, Copy, PartialEq, Eq, Structural)]
pub enum Action {
    Nothing,
    /// Open the saved database with the typed password.
    Open,
    /// Create a database with the (agreed) new password.
    Create,
    /// Hand the open contacts to the window.
    Deliver,
    /// Tell the window no contacts come.
    Cancel,
}

/// Notices of the contacts dialog.
#[derive(Debug, Clone, Copy, PartialEq, Eq, Structural)]
pub enum Notice {
    Silent,
    PasswordsDiffer,
    WrongPassword,
}

pub open spec fn notice_text(n: Notice) -> Seq<char> {
    match n {
        Notice::Silent => ""@,
        Notice::PasswordsDiffer => "The passwords do not match"@,
        Notice::WrongPassword => "Wrong password, try again"@,
    }
}

impl Notice {
    /// The text of the notice, shown as an error.
    pub fn text(&self) -> (r: &'static str)
        ensures
            r@ == notice_text(*self),
    {
        match self {
            Notice::Silent => "",
            Notice::PasswordsDiffer => "The passwords do not match",
            Notice::WrongPassword => "Wrong password, try again",
        }
    }
}

/// The answer of the contacts dialog to an input.
#[derive(Debug, Clone, Copy, PartialEq, Eq, Structural)]
pub struct Effects {
    pub action: Action,
    pub marks: FieldMarks,
    pub notice: Notice,
}

/// Whether the contacts dialog is shown and the contacts are open.
pub struct Holder {
    pub visible: bool,
    pub loaded: bool,
}

pub open spec fn effects(action: Action, marks: FieldMarks, notice: Notice) -> Effects {
    Effects { action, marks, notice }
}

impl Holder {
    /// Hidden, with the contacts closed.
    pub fn new() -> (r: Self)
        ensures
            !r.visible,
            !r.loaded,
    {
        Holder { visible: false, loaded: false }
    }

    /// Answers one input. "Enter" opens the saved database, or creates
    /// one when the two new passwords agree; a page asking for contacts
    /// gets them at once when they are open and otherwise sees the dialog;
    /// a failed opening marks the password fields.
    pub fn step(&mut self, input: &Msg) -> (r: Effects)
        ensures
            match input {
                Msg::Return { database_exists, first, second } => *final(self) == *old(
                    self,
                ) && if old(self).loaded {
                    r == effects(Action::Nothing, FieldMarks::Untouched, Notice::Silent)
                } else if *database_exists {
                    r == effects(Action::Open, FieldMarks::ClearExisting, Notice::Silent)
                } else if first@ == second@ {
                    r == effects(Action::Create, FieldMarks::ClearNew, Notice::Silent)
                } else {
                    r == effects(Action::Nothing, FieldMarks::MarkNew, Notice::PasswordsDiffer)
                },
                Msg::Get => if old(self).loaded {
                    *final(self) == *old(self) && r == effects(
                        Action::Deliver,
                        FieldMarks::Untouched,
                        Notice::Silent,
                    )
                } else {
                    *final(self) == (Holder { visible: true, loaded: false }) && r
                        == effects(Action::Nothing, FieldMarks::Untouched, Notice::Silent)
                },
                Msg::Hide => *final(self) == (Holder {
                    visible: false,
                    loaded: old(self).loaded,
                }) && r == effects(Action::Cancel, FieldMarks::Untouched, Notice::Silent),
                Msg::Opened { success, database_exists } => if *success {
                    *final(self) == (Holder { visible: false, loaded: true }) && r
                        == effects(Action::Deliver, FieldMarks::Untouched, Notice::Silent)
                } else {
                    *final(self) == *old(self) && r == effects(
                        Action::Nothing,
                        if *database_exists {
                            FieldMarks::MarkExisting
                        } else {
                            FieldMarks::MarkNew
                        },
                        Notice::WrongPassword,
                    )
                },
            },
    {
        let quiet = Effects {
            action: Action::Nothing,
            marks: FieldMarks::Untouched,
            notice: Notice::Silent,
        };
        match input {
            Msg::Return { database_exists, first, second } => {
                if self.loaded {
                    quiet
                } else if *database_exists {
                    Effects { action: Action::Open, marks: FieldMarks::ClearExisting, ..quiet }
                } else if *first == *second {
                    Effects { action: Action::Create, marks: FieldMarks::ClearNew, ..quiet }
                } else {
                    Effects {
                        marks: FieldMarks::MarkNew,
                        notice: Notice::PasswordsDiffer,
                        ..quiet
                    }
                }
            },
            Msg::Get => {
                if self.loaded {
                    Effects { action: Action::Deliver, ..quiet }
                } else {
                    self.visible = true;
                    quiet
                }
            },
            Msg::Hide => {
                self.visible = false;
                Effects { action: Action::Cancel, ..quiet }
            },
            Msg::Opened { success, database_exists } => {
                if *success {
                    self.loaded = true;
                    self.visible = false;
                    Effects { action: Action::Deliver, ..quiet }
                } else {
                    Effects {
                        marks: if *database_exists {
                            FieldMarks::MarkExisting
                        } else {
                            FieldMarks::MarkNew
                        },
                        notice: Notice::WrongPassword,
                        ..quiet
                    }
                }
            },
        }
    }
}

} // verus!
