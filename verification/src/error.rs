//! The failures that a command invocation can report to its caller, and the
//! text in which the web view is told of them.

use vstd::prelude::*;
use vstd::string::StringExecFns;

verus! {

/// Why a command invocation failed. Every kind is recoverable: it is handed
/// back to the invoking web-view call and never ends the process.
#[derive(Debug, Clone, Copy, PartialEq, Eq, Structural)]
pub enum BridgeError {
    /// The web view asked for a name that no command is registered under.
    UnknownCommand,
    /// The native routine handed back a null pointer.
    NativeCallFailed,
    /// The native routine's bytes are not UTF-8; `offset` counts the bytes,
    /// from the start of the text, that were well-formed.
    EncodingError { offset: usize },
    /// The navigation event could not be delivered to the window.
    EmitFailed,
}

/// The character that stands for a digit below ten.
pub open spec fn digit(d: nat) -> char {
    if d == 0 {
        '0'
    } else if d == 1 {
        '1'
    } else if d == 2 {
        '2'
    } else if d == 3 {
        '3'
    } else if d == 4 {
        '4'
    } else if d == 5 {
        '5'
    } else if d == 6 {
        '6'
    } else if d == 7 {
        '7'
    } else if d == 8 {
        '8'
    } else {
        '9'
    }
}

/// A number written in decimal, without leading zeros.
pub open spec fn decimal(n: nat) -> Seq<char>
    decreases n,
{
    if n < 10 {
        seq![digit(n)]
    } else {
        decimal(n / 10).push(digit(n % 10))
    }
}

/// The text in which a failure is reported.
pub open spec fn message_text(error: BridgeError) -> Seq<char> {
    match error {
        BridgeError::UnknownCommand => "unknown command"@,
        BridgeError::NativeCallFailed => "native call failed"@,
        BridgeError::EncodingError { offset } => "native text is not UTF-8 after byte "@ + decimal(
            offset as nat,
        ),
        BridgeError::EmitFailed => "failed to emit"@,
    }
}

/// One digit as a string.
fn digit_text(d: usize) -> (text: &'static str)
    requires
        d < 10,
    ensures
        text@ == seq![digit(d as nat)],
{
    proof {
        reveal_strlit("0");
        reveal_strlit("1");
        reveal_strlit("2");
        reveal_strlit("3");
        reveal_strlit("4");
        reveal_strlit("5");
        reveal_strlit("6");
        reveal_strlit("7");
        reveal_strlit("8");
        reveal_strlit("9");
    }
    let text = if d == 0 {
        "0"
    } else if d == 1 {
        "1"
    } else if d == 2 {
        "2"
    } else if d == 3 {
        "3"
    } else if d == 4 {
        "4"
    } else if d == 5 {
        "5"
    } else if d == 6 {
        "6"
    } else if d == 7 {
        "7"
    } else if d == 8 {
        "8"
    } else {
        "9"
    };
    assert(text@ =~= seq![digit(d as nat)]);
    text
}

/// Writes `n` in decimal at the end of `out`.
fn append_decimal(out: &mut String, n: usize)
    ensures
        final(out)@ == old(out)@ + decimal(n as nat),
    decreases n,
{
    if n >= 10 {
        append_decimal(out, n / 10);
    }
    out.append(digit_text(n % 10));
    assert(out@ =~= old(out)@ + decimal(n as nat));
}

impl BridgeError {
    /// The failure as the string that the web view receives.
    pub fn message(&self) -> (text: String)
        ensures
            text@ == message_text(*self),
    {
        match self {
            BridgeError::UnknownCommand => "unknown command".to_owned(),
            BridgeError::NativeCallFailed => "native call failed".to_owned(),
            BridgeError::EncodingError { offset } => {
                let mut text = "native text is not UTF-8 after byte ".to_owned();
                append_decimal(&mut text, *offset);
                text
            },
            BridgeError::EmitFailed => "failed to emit".to_owned(),
        }
    }
}

} // verus!
