//! The command-line choices of the terminal client and how each of them
//! decides the way a passphrase is obtained.

use vstd::prelude::*;

verus! {

/// How the sender pairs: with a typed passphrase, with a saved contact, or
/// (when neither is given) with a generated passphrase.
pub struct SendMethod {
    pub passphrase: Option<String>,
    pub contact: Option<String>,
}

/// How the receiver pairs: with a typed passphrase or with a saved
/// contact; one of them is always given.
pub struct ReceiveMethod {
    pub passphrase: Option<String>,
    pub contact: Option<String>,
}

/// Pairing a new contact without transferring a file.
pub enum PairCommand {
    /// Starts the pairing, with a given or generated passphrase.
    Start { name: String, passphrase: Option<String> },
    /// Completes a pairing started by the peer.
    Complete { name: String, passphrase: String },
}

/// Querying or modifying the saved contacts.
pub enum ContactCommand {
    List,
    Delete { name: String },
}

/// Where the passphrase of a pairing comes from.
#[derive(Debug, PartialEq, Eq)]
pub enum MethodChoice {
    /// The given passphrase.
    Direct(String),
    /// A freshly generated passphrase.
    Generate,
    /// The key saved for the named contact.
    Contact(String),
}

impl SendMethod {
    /// A typed passphrase wins over a contact; with neither, one is
    /// generated.
    pub fn choice(&self) -> (r: MethodChoice)
        ensures
            match self.passphrase {
                Some(p) => r matches MethodChoice::Direct(q) && q@ == p@,
                None => match self.contact {
                    Some(c) => r matches MethodChoice::Contact(d) && d@ == c@,
                    None => r is Generate,
                },
            },
    {
        match &self.passphrase {
            Some(p) => MethodChoice::Direct(p.clone()),
            None => match &self.contact {
                Some(c) => MethodChoice::Contact(c.clone()),
                None => MethodChoice::Generate,
            },
        }
    }
}

impl ReceiveMethod {
    /// A typed passphrase wins over a contact.
    pub fn choice(&self) -> (r: MethodChoice)
        requires
            self.passphrase is Some || self.contact is Some,
        ensures
            match self.passphrase {
                Some(p) => r matches MethodChoice::Direct(q) && q@ == p@,
                None => r matches MethodChoice::Contact(d) && d@ == self.contact->0@,
            },
    {
        match &self.passphrase {
            Some(p) => MethodChoice::Direct(p.clone()),
            None => match &self.contact {
                Some(c) => MethodChoice::Contact(c.clone()),
                None => {
                    proof {
                        assert(false);
                    }
                    MethodChoice::Generate
                },
            },
        }
    }
}

impl PairCommand {
    /// The name the paired contact is saved under.
    pub fn name(&self) -> (r: &String)
        ensures
            match self {
                PairCommand::Start { name, .. } => r == name,
                PairCommand::Complete { name, .. } => r == name,
            },
    {
        match self {
            PairCommand::Start { name, .. } => name,
            PairCommand::Complete { name, .. } => name,
        }
    }

    /// Starting uses the given passphrase or a generated one; completing
    /// always uses the given one.
    pub fn choice(&self) -> (r: MethodChoice)
        ensures
            match self {
                PairCommand::Start { passphrase, .. } => match passphrase {
                    Some(p) => r matches MethodChoice::Direct(q) && q@ == p@,
                    None => r is Generate,
                },
                PairCommand::Complete { passphrase, .. } => r matches MethodChoice::Direct(q)
                    && q@ == passphrase@,
            },
    {
        match self {
            PairCommand::Start { passphrase, .. } => match passphrase {
                Some(p) => MethodChoice::Direct(p.clone()),
                None => MethodChoice::Generate,
            },
            PairCommand::Complete { passphrase, .. } => MethodChoice::Direct(passphrase.clone()),
        }
    }

    /// Whether this side starts the pairing (and so plays the sender).
    pub fn starts(&self) -> (r: bool)
        ensures
            r == (self is Start),
    {
        match self {
            PairCommand::Start { .. } => true,
            PairCommand::Complete { .. } => false,
        }
    }
}

} // verus!
