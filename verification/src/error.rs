//! The errors of loading and running a cartridge, and their messages.

use vstd::prelude::*;
use crate::ascii::push_char;

verus! {

/// `std::io::Error`, declared so that `Error::Open` can carry the error a failed open
/// reports. It is opaque: nothing is claimed of what it holds.
#[verifier::external_type_specification]
#[verifier::external_body]
pub struct ExIoError(std::io::Error);

#[derive(Debug)]
pub enum Error {
    /// The cartridge file could not be read
    Open(std::io::Error),
    /// The file is not a cartridge image
    InvalidPak,
    /// The cartridge uses a mapper that is not supported
    UnsupportedMapper(u8),
    /// The CPU fetched an opcode it does not implement
    UnknownOpcode { opcode: u8, pc: u16 },
}

/// The ASCII code of hex digit `n` (0 - 15), upper case.
pub open spec fn hex_code(n: u8) -> u8 {
    if n < 10 { (48 + n) as u8 } else { (55 + n) as u8 }
}

/// `v` as two upper-case hex digits.
pub open spec fn hex2(v: u8) -> Seq<char> {
    seq![hex_code(v / 16) as char, hex_code(v % 16) as char]
}

/// `v` as four upper-case hex digits.
pub open spec fn hex4(v: u16) -> Seq<char> {
    hex2((v / 256) as u8) + hex2((v % 256) as u8)
}

/// The decimal digit `n` (0 - 9).
pub open spec fn digit(n: u8) -> char {
    (48 + n) as u8 as char
}

/// `v` in decimal, without leading zeros.
pub open spec fn decimal(v: u8) -> Seq<char> {
    if v >= 100 {
        seq![digit(v / 100), digit((v / 10) % 10), digit(v % 10)]
    } else if v >= 10 {
        seq![digit(v / 10), digit(v % 10)]
    } else {
        seq![digit(v)]
    }
}

/// The message of an error.
pub open spec fn message_of(e: Error) -> Seq<char> {
    match e {
        Error::Open(_) => "open"@,
        Error::InvalidPak => "invalid pak"@,
        Error::UnsupportedMapper(m) => "unsupported mapper: "@ + decimal(m),
        Error::UnknownOpcode { opcode, pc } => "unknown opcode $"@ + hex2(opcode) + seq![' ', 'a', 't', ' ', '$']
            + hex4(pc),
    }
}

/// The ASCII code of a hex digit.
pub(crate) fn hex_code_of(n: u8) -> (r: u8)
    requires
        n < 16,
    ensures
        r == hex_code(n),
        r < 0x80,
{
    if n < 10 {
        48 + n
    } else {
        55 + n
    }
}

/// Append two hex digits.
fn push_hex2(s: &mut String, v: u8)
    ensures
        final(s)@ == old(s)@ + hex2(v),
{
    push_char(s, hex_code_of(v / 16));
    push_char(s, hex_code_of(v % 16));
    assert(final(s)@ =~= old(s)@ + hex2(v));
}

/// Append a decimal number.
fn push_decimal(s: &mut String, v: u8)
    ensures
        final(s)@ == old(s)@ + decimal(v),
{
    if v >= 100 {
        push_char(s, 48 + v / 100);
        push_char(s, 48 + (v / 10) % 10);
    } else if v >= 10 {
        push_char(s, 48 + v / 10);
    }
    push_char(s, 48 + v % 10);
    assert(final(s)@ =~= old(s)@ + decimal(v));
}

impl Error {
    /// The message of the error (what the front-end prints).
    pub fn message(&self) -> (s: String)
        ensures
            s@ == message_of(*self),
    {
        match self {
            Error::Open(_) => "open".to_owned(),
            Error::InvalidPak => "invalid pak".to_owned(),
            Error::UnsupportedMapper(m) => {
                let mut s = "unsupported mapper: ".to_owned();
                push_decimal(&mut s, *m);
                s
            },
            Error::UnknownOpcode { opcode, pc } => {
                let mut s = "unknown opcode $".to_owned();
                push_hex2(&mut s, *opcode);
                push_char(&mut s, 32);
                push_char(&mut s, 97);
                push_char(&mut s, 116);
                push_char(&mut s, 32);
                push_char(&mut s, 36);
                push_hex2(&mut s, (*pc / 256) as u8);
                push_hex2(&mut s, (*pc % 256) as u8);
                assert(s@ =~= message_of(*self));
                s
            },
        }
    }
}

} // verus!
