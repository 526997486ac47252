//! The question asked before an irreversible action.

use vstd::prelude::*;

verus! {

/// A question asked before an irreversible action.
pub struct Confirmation {
    pub heading: String,
    pub confirm: Option<&'static str>,
    pub deny: Option<&'static str>,
}

impl Confirmation {
    /// A question with the default answers.
    pub fn new(heading: String) -> (r: Self)
        ensures
            r.heading == heading,
            r.confirm is None,
            r.deny is None,
    {
        Confirmation { heading, confirm: None, deny: None }
    }

    /// Sets the label of the affirmative answer.
    pub fn confirm(&mut self, confirm: &'static str) -> (r: &mut Self)
        ensures
            *r == (Confirmation { confirm: Some(confirm), ..*old(self) }),
            *final(self) == *final(r),
    {
        self.confirm = Some(confirm);
        self
    }

    /// Sets the label of the negative answer.
    pub fn deny(&mut self, deny: &'static str) -> (r: &mut Self)
        ensures
            *r == (Confirmation { deny: Some(deny), ..*old(self) }),
            *final(self) == *final(r),
    {
        self.deny = Some(deny);
        self
    }

    /// The label of the affirmative answer, "Yes" unless set.
    pub fn confirm_label(&self) -> (r: &'static str)
        ensures
            match self.confirm {
                Some(c) => r == c,
                None => r@ == "Yes"@,
            },
    {
        match self.confirm {
            Some(c) => c,
            None => "Yes",
        }
    }

    /// The label of the negative answer, "No" unless set.
    pub fn deny_label(&self) -> (r: &'static str)
        ensures
            match self.deny {
                Some(d) => r == d,
                None => r@ == "No"@,
            },
    {
        match self.deny {
            Some(d) => d,
            None => "No",
        }
    }

    /// The question shown.
    pub fn heading_text(&self) -> (r: String)
        ensures
            r@ == "You are about to "@ + self.heading@,
    {
        let mut r = String::from_str("You are about to ");
        r.append(self.heading.as_str());
        r
    }
}

/// Whether the answer chosen in a confirmation dialog is the affirmative
/// one (its identifier is "yes").
pub fn is_confirmed(response: &str) -> (r: bool)
    ensures
        r == (response@ == "yes"@),
{
    let yes = String::from_str("yes");
    response.to_owned() == yes
}

} // verus!
