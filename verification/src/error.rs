//! Failures that creating a window can report, and their wording.

use vstd::prelude::*;

verus! {

/// Why a window could not be created. Each variant carries the error code
/// that the platform gave.
#[derive(Clone, Copy, Debug, PartialEq, Eq, Structural)]
pub enum WindowError {
    /// The platform refused to register the window class.
    ClassRegistrationFailed(u32),
    /// The platform refused to create the window.
    WindowCreationFailed(u32),
}

/// The upper-case hexadecimal digit for a value from 0 to 15.
pub open spec fn hex_digit(value: int) -> char {
    if value < 10 {
        ('0' as int + value) as char
    } else {
        ('A' as int + (value - 10)) as char
    }
}

/// A number in upper-case hexadecimal, without leading zeros; zero is "0".
pub open spec fn hex_digits(value: nat) -> Seq<char>
    decreases value,
{
    if value < 16 {
        seq![hex_digit(value as int)]
    } else {
        hex_digits(value / 16).push(hex_digit((value % 16) as int))
    }
}

impl WindowError {
    /// The error code that the platform gave.
    pub open spec fn code_of(self) -> u32 {
        match self {
            WindowError::ClassRegistrationFailed(code) => code,
            WindowError::WindowCreationFailed(code) => code,
        }
    }

    /// How the message for this error begins, up to the digits of the code.
    pub open spec fn preamble(self) -> Seq<char> {
        match self {
            WindowError::ClassRegistrationFailed(_) => "Failed to register windowclass! (Code: 0x"@,
            WindowError::WindowCreationFailed(_) => "Failed to create window! (Code: 0x"@,
        }
    }

    /// The message for this error: what failed, and the code in hexadecimal.
    pub open spec fn message_text(self) -> Seq<char> {
        self.preamble() + hex_digits(self.code_of() as nat) + ")"@
    }

    /// The error code that the platform gave.
    pub fn code(&self) -> (code: u32)
        ensures
            code == self.code_of(),
    {
        match self {
            WindowError::ClassRegistrationFailed(code) => *code,
            WindowError::WindowCreationFailed(code) => *code,
        }
    }

    /// Words the error for a person to read, with the code in upper-case
    /// hexadecimal after `0x`.
    pub fn message(&self) -> (text: String)
        ensures
            text@ == self.message_text(),
    {
        let mut text: String = match self {
            WindowError::ClassRegistrationFailed(_) => String::from_str(
                "Failed to register windowclass! (Code: 0x",
            ),
            WindowError::WindowCreationFailed(_) => String::from_str(
                "Failed to create window! (Code: 0x",
            ),
        };
        append_hex(&mut text, self.code());
        text.append(")");
        text
    }
}

/// The text of one hexadecimal digit.
fn hex_digit_text(value: u32) -> (text: &'static str)
    requires
        value < 16,
    ensures
        text@ == seq![hex_digit(value as int)],
{
    proof {
        reveal_strlit("0");
        reveal_strlit("1");
        reveal_strlit("2");
        reveal_strlit("3");
        reveal_strlit("4");
        reveal_strlit("5");
        reveal_strlit("6");
        reveal_strlit("7");
        reveal_strlit("8");
        reveal_strlit("9");
        reveal_strlit("A");
        reveal_strlit("B");
        reveal_strlit("C");
        reveal_strlit("D");
        reveal_strlit("E");
        reveal_strlit("F");
    }
    let text: &'static str = match value {
        0 => "0",
        1 => "1",
        2 => "2",
        3 => "3",
        4 => "4",
        5 => "5",
        6 => "6",
        7 => "7",
        8 => "8",
        9 => "9",
        10 => "A",
        11 => "B",
        12 => "C",
        13 => "D",
        14 => "E",
        _ => "F",
    };
    assert(text@ =~= seq![hex_digit(value as int)]);
    text
}

/// Appends a number in upper-case hexadecimal, without leading zeros.
fn append_hex(text: &mut String, value: u32)
    ensures
        final(text)@ == old(text)@ + hex_digits(value as nat),
    decreases value,
{
    if value >= 16 {
        append_hex(text, value / 16);
    }
    text.append(hex_digit_text(value % 16));
    assert(text@ =~= old(text)@ + hex_digits(value as nat));
}

} // verus!
