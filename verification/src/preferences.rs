//! The preferences dialog of the graphical client, where the address of
//! the rendezvous server is set.

use vstd::prelude::*;

verus! {

/// The settings the dialog shows and changes: the address and port of the
/// rendezvous server (`A` is a network address), with the other settings
/// (`R`), which the dialog keeps as they are.
#[derive(Clone, Copy)]
pub struct Settings<A, R> {
    pub server_address: A,
    pub server_port: u16,
    pub rest: R,
}

/// An input of the preferences dialog.
pub enum Msg<A, R> {
    /// "Save" was pressed; `typed` is the text of the address field read
    /// as an address and a port, or nothing when it does not read as one.
    Return { typed: Option<(A, u16)> },
    /// The edit button was pressed.
    EditServerAddress,
    Open,
    Hide,
    /// Loading, or saving, the settings ended, with the settings read, or
    /// nothing when they could not be.
    Config(Option<Settings<A, R>>),
}

/// What the preferences dialog does.
pub enum Action<A, R> {
    Nothing,
    /// Save these settings.
    Persist(Settings<A, R>),
    /// Put the cursor in the address field.
    Focus,
    /// Fill the address field with this address and port (see
    /// [`address_field_text`]).
    ShowAddress(A, u16),
    /// Tell the window the settings were saved.
    Saved,
}

/// Notices of the preferences dialog, shown as errors.
#[derive(Debug, Clone, Copy, PartialEq, Eq, Structural)]
pub enum Notice {
    Silent,
    NotAnAddress,
    InvalidAddress,
}

pub open spec fn notice_text(n: Notice) -> Seq<char> {
    match n {
        Notice::Silent => ""@,
        Notice::NotAnAddress => "Not a valid ip address"@,
        Notice::InvalidAddress => "Invalid ip address"@,
    }
}

impl Notice {
    /// The text of the notice.
    pub fn text(&self) -> (r: &'static str)
        ensures
            r@ == notice_text(*self),
    {
        match self {
            Notice::Silent => "",
            Notice::NotAnAddress => "Not a valid ip address",
            Notice::InvalidAddress => "Invalid ip address",
        }
    }
}

/// The answer of the preferences dialog: what it does, its notice, and
/// whether the address field is marked as wrong.
pub struct Effects<A, R> {
    pub action: Action<A, R>,
    pub notice: Notice,
    pub mark_address: bool,
}

/// Whether the preferences dialog is shown, and the settings once loaded.
pub struct Preferences<A, R> {
    pub visible: bool,
    pub config: Option<Settings<A, R>>,
}

pub open spec fn effects<A, R>(action: Action<A, R>, notice: Notice, mark_address: bool) -> Effects<A, R> {
    Effects { action, notice, mark_address }
}

/// The character of the decimal digit `d`.
pub open spec fn digit(d: nat) -> char {
    if d == 0 {
        '0'
    } else if d == 1 {
        '1'
    } else if d == 2 {
        '2'
    } else if d == 3 {
        '3'
    } else if d == 4 {
        '4'
    } else if d == 5 {
        '5'
    } else if d == 6 {
        '6'
    } else if d == 7 {
        '7'
    } else if d == 8 {
        '8'
    } else {
        '9'
    }
}

/// `n` written in decimal, without leading zeros.
pub open spec fn decimal(n: nat) -> Seq<char>
    decreases n,
{
    if n < 10 {
        seq![digit(n)]
    } else {
        decimal(n / 10).push(digit(n % 10))
    }
}

fn digit_text(d: u16) -> (r: &'static str)
    requires
        d < 10,
    ensures
        r@ == seq![digit(d as nat)],
{
    match d {
        0 => {
            proof {
                reveal_strlit("0");
            }
            "0"
        },
        1 => {
            proof {
                reveal_strlit("1");
            }
            "1"
        },
        2 => {
            proof {
                reveal_strlit("2");
            }
            "2"
        },
        3 => {
            proof {
                reveal_strlit("3");
            }
            "3"
        },
        4 => {
            proof {
                reveal_strlit("4");
            }
            "4"
        },
        5 => {
            proof {
                reveal_strlit("5");
            }
            "5"
        },
        6 => {
            proof {
                reveal_strlit("6");
            }
            "6"
        },
        7 => {
            proof {
                reveal_strlit("7");
            }
            "7"
        },
        8 => {
            proof {
                reveal_strlit("8");
            }
            "8"
        },
        _ => {
            proof {
                reveal_strlit("9");
            }
            "9"
        },
    }
}

fn append_decimal(s: &mut String, n: u16)
    ensures
        final(s)@ == old(s)@ + decimal(n as nat),
    decreases n,
{
    if n >= 10 {
        append_decimal(s, n / 10);
    }
    s.append(digit_text(n % 10));
    proof {
        if n >= 10 {
            assert(old(s)@ + decimal((n / 10) as nat) + seq![digit((n % 10) as nat)] =~= old(s)@
                + decimal(n as nat));
        } else {
            assert(old(s)@ + seq![digit((n % 10) as nat)] =~= old(s)@ + decimal(n as nat));
        }
    }
}

/// The text of the address field: the address as written (`address`),
/// a colon, and the port in decimal.
pub fn address_field_text(address: &str, port: u16) -> (r: String)
    ensures
        r@ == address@ + ":"@ + decimal(port as nat),
{
    let mut r = address.to_owned();
    r.append(":");
    append_decimal(&mut r, port);
    r
}

impl<A: Copy, R: Copy> Preferences<A, R> {
    /// Hidden; the settings are loading.
    pub fn new() -> (r: Self)
        ensures
            !r.visible,
            r.config is None,
    {
        Preferences { visible: false, config: None }
    }

    /// Answers one input. Saving puts the typed address and port into the
    /// loaded settings, keeping the others, and asks for them to be saved;
    /// text that does not read as an address is refused. The first settings
    /// that arrive fill the form; later ones confirm a save and close the
    /// dialog. Saving needs the settings loaded.
    pub fn step(&mut self, input: Msg<A, R>) -> (r: Effects<A, R>)
        requires
            input matches Msg::Return { .. } ==> old(self).config is Some,
        ensures
            match input {
                Msg::Return { typed } => *final(self) == *old(self) && match typed {
                    Some((address, port)) => r == effects(
                        Action::Persist(
                            Settings {
                                server_address: address,
                                server_port: port,
                                ..old(self).config->0
                            },
                        ),
                        Notice::Silent,
                        false,
                    ),
                    None => r == effects(Action::<A, R>::Nothing, Notice::NotAnAddress, true),
                },
                Msg::EditServerAddress => *final(self) == *old(self) && r == effects(
                    Action::<A, R>::Focus,
                    Notice::Silent,
                    false,
                ),
                Msg::Open => *final(self) == (Preferences { visible: true, ..*old(self) }) && r
                    == effects(Action::<A, R>::Nothing, Notice::Silent, false),
                Msg::Hide => *final(self) == (Preferences { visible: false, ..*old(self) }) && r
                    == effects(Action::<A, R>::Nothing, Notice::Silent, false),
                Msg::Config(loaded) => match loaded {
                    None => *final(self) == *old(self) && r == effects(
                        Action::<A, R>::Nothing,
                        Notice::InvalidAddress,
                        true,
                    ),
                    Some(c) => if old(self).config is None {
                        *final(self) == (Preferences { visible: old(self).visible, config: Some(c) })
                            && r == effects(
                            Action::<A, R>::ShowAddress(c.server_address, c.server_port),
                            Notice::Silent,
                            false,
                        )
                    } else {
                        *final(self) == (Preferences { visible: false, ..*old(self) }) && r
                            == effects(Action::<A, R>::Saved, Notice::Silent, false)
                    },
                },
            },
    {
        match input {
            Msg::Return { typed } => match typed {
                Some((address, port)) => {
                    let mut settings = self.config.unwrap();
                    settings.server_address = address;
                    settings.server_port = port;
                    Effects { action: Action::Persist(settings), notice: Notice::Silent, mark_address: false }
                },
                None => Effects {
                    action: Action::Nothing,
                    notice: Notice::NotAnAddress,
                    mark_address: true,
                },
            },
            Msg::EditServerAddress => Effects {
                action: Action::Focus,
                notice: Notice::Silent,
                mark_address: false,
            },
            Msg::Open => {
                self.visible = true;
                Effects { action: Action::Nothing, notice: Notice::Silent, mark_address: false }
            },
            Msg::Hide => {
                self.visible = false;
                Effects { action: Action::Nothing, notice: Notice::Silent, mark_address: false }
            },
            Msg::Config(loaded) => match loaded {
                None => Effects {
                    action: Action::Nothing,
                    notice: Notice::InvalidAddress,
                    mark_address: true,
                },
                Some(c) => if self.config.is_none() {
                    self.config = Some(c);
                    Effects {
                        action: Action::ShowAddress(c.server_address, c.server_port),
                        notice: Notice::Silent,
                        mark_address: false,
                    }
                } else {
                    self.visible = false;
                    Effects { action: Action::Saved, notice: Notice::Silent, mark_address: false }
                },
            },
        }
    }
}

/// The number that the decimal digits `s` stand for, each digit being read
/// by its character code.
pub open spec fn decimal_value(s: Seq<char>) -> int
    decreases s.len(),
{
    if s.len() == 0 {
        0
    } else {
        decimal_value(s.drop_last()) * 10 + ((s.last() as int) - ('0' as int))
    }
}

/// `c` is one of the characters '0' to '9'.
pub open spec fn is_decimal_digit(c: char) -> bool {
    ('0' as int) <= (c as int) <= ('9' as int)
}

/// Each digit is the character whose code is that of '0' plus the digit.
pub proof fn law_digit_code(d: nat)
    requires
        d < 10,
    ensures
        (digit(d) as int) == ('0' as int) + d,
{
}

/// The decimal writing of a number is made of digits only, starts with a
/// zero only for zero itself, and reads back as that number: the port shown
/// in the address field is the port of the settings.
pub proof fn law_decimal_reads_back(n: nat)
    ensures
        decimal(n).len() >= 1,
        forall|i: int| 0 <= i < decimal(n).len() ==> is_decimal_digit(#[trigger] decimal(n)[i]),
        decimal(n)[0] == '0' ==> n == 0,
        decimal_value(decimal(n)) == n,
    decreases n,
{
    if n < 10 {
        law_digit_code(n);
        let s = decimal(n);
        assert(s.drop_last() =~= Seq::<char>::empty());
        assert(decimal_value(s.drop_last()) == 0);
        assert(s.last() == digit(n));
        assert(decimal_value(s) == decimal_value(s.drop_last()) * 10 + ((s.last() as int) - (
        '0' as int)));
    } else {
        let m = n / 10;
        let d = (n % 10) as nat;
        law_decimal_reads_back(m);
        law_digit_code(d);
        let s = decimal(m).push(digit(d));
        assert(s.drop_last() =~= decimal(m));
        assert(decimal(n) == s);
        assert(s.last() == digit(d));
        assert(decimal_value(s) == decimal_value(s.drop_last()) * 10 + ((s.last() as int) - (
        '0' as int)));
        assert(m * 10 + d == n) by (nonlinear_arith)
            requires
                m == n / 10,
                d == n % 10,
        ;
        assert(m >= 1);
        assert forall|i: int| 0 <= i < s.len() implies is_decimal_digit(#[trigger] s[i]) by {
            if i < decimal(m).len() {
                assert(s[i] == decimal(m)[i]);
            }
        }
        assert(s[0] == decimal(m)[0]);
    }
}

/// Two ports are written the same way only when they are the same port.
pub proof fn law_decimal_distinct(a: nat, b: nat)
    ensures
        decimal(a) == decimal(b) ==> a == b,
{
    law_decimal_reads_back(a);
    law_decimal_reads_back(b);
}

} // verus!
