//! The short notices of the graphical client and the icons it shows.

use vstd::prelude::*;

verus! {

/// An icon of the graphical client.
#[derive(Debug, Clone, Copy, PartialEq, Eq, Structural)]
pub enum Icon {
    Send,
    Inbox,
    InfoOutline,
    SuccessSmall,
    WarningOutline,
    MinusCircleOutline,
}

/// How much a notice matters.
#[derive(Debug, Clone, Copy, PartialEq, Eq, Structural)]
pub enum Severity {
    Info,
    Success,
    Warn,
    Error,
}

pub open spec fn severity_color(s: Severity) -> Seq<char> {
    match s {
        Severity::Info => "accent"@,
        Severity::Success => "success"@,
        Severity::Warn => "warning"@,
        Severity::Error => "error"@,
    }
}

impl Severity {
    /// The icon of a notice.
    pub fn icon(&self) -> (r: Icon)
        ensures
            r == match *self {
                Severity::Info => Icon::InfoOutline,
                Severity::Success => Icon::SuccessSmall,
                Severity::Warn => Icon::WarningOutline,
                Severity::Error => Icon::MinusCircleOutline,
            },
    {
        match self {
            Severity::Info => Icon::InfoOutline,
            Severity::Success => Icon::SuccessSmall,
            Severity::Warn => Icon::WarningOutline,
            Severity::Error => Icon::MinusCircleOutline,
        }
    }

    /// The style class that colours a notice.
    pub fn color(&self) -> (r: &'static str)
        ensures
            r@ == severity_color(*self),
    {
        match self {
            Severity::Info => "accent",
            Severity::Success => "success",
            Severity::Warn => "warning",
            Severity::Error => "error",
        }
    }
}

} // verus!
