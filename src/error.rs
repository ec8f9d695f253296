//! Errors of the library and the text of their messages.

use vstd::prelude::*;

use crate::status::{err_msg_hardware_status, status_message, OSStatus, K_AUDIO_HARDWARE_NO_ERROR};

verus! {

/// Which kind of failure an [`AudioError`] reports.
#[derive(Debug, Clone, Copy, PartialEq, Eq, Structural)]
pub enum ErrorKind {
    /// A call of the hardware API returned this status instead of success.
    Hardware(OSStatus),
    /// Input handed to the library breaks one of its preconditions.
    Validation,
    /// The library was driven in a way its protocol does not allow.
    Misuse,
    /// The host's file system or operating system failed.
    Io,
}

/// Error of the library: what failed, and in words.
#[derive(Debug)]
pub struct AudioError {
    pub msg: String,
    pub kind: ErrorKind,
}

/// The character of one decimal digit.
pub open spec fn digit_char(d: nat) -> char {
    if d == 0 {
        '0'
    } else if d == 1 {
        '1'
    } else if d == 2 {
        '2'
    } else if d == 3 {
        '3'
    } else if d == 4 {
        '4'
    } else if d == 5 {
        '5'
    } else if d == 6 {
        '6'
    } else if d == 7 {
        '7'
    } else if d == 8 {
        '8'
    } else {
        '9'
    }
}

/// Decimal digits of a natural number, most significant first.
pub open spec fn decimal(n: nat) -> Seq<char>
    decreases n,
{
    if n < 10 {
        seq![digit_char(n)]
    } else {
        decimal(n / 10).push(digit_char(n % 10))
    }
}

/// Decimal text of an integer, with a leading `-` when it is negative.
pub open spec fn signed_decimal(n: int) -> Seq<char> {
    if n < 0 {
        seq!['-'] + decimal((-n) as nat)
    } else {
        decimal(n as nat)
    }
}

/// Message of a failed hardware call: what was attempted, the explanation of
/// the status, and the status itself.
pub open spec fn status_error_text(msg: Seq<char>, status_msg: Seq<char>, status: OSStatus) -> Seq<char> {
    msg + ": "@ + status_msg + "[OSStatus: "@ + signed_decimal(status as int) + "]"@
}

/// `e` reports that the call described by `msg` returned `status`.
pub open spec fn is_hardware_error(e: AudioError, msg: Seq<char>, status: OSStatus) -> bool {
    &&& e.kind == ErrorKind::Hardware(status)
    &&& e.msg@ == status_error_text(msg, status_message(status), status)
}

fn digit_str(d: u32) -> (r: &'static str)
    requires
        d < 10,
    ensures
        r@ == seq![digit_char(d as nat)],
{
    proof {
        reveal_strlit("0");
        reveal_strlit("1");
        reveal_strlit("2");
        reveal_strlit("3");
        reveal_strlit("4");
        reveal_strlit("5");
        reveal_strlit("6");
        reveal_strlit("7");
        reveal_strlit("8");
        reveal_strlit("9");
    }
    let r = if d == 0 {
        "0"
    } else if d == 1 {
        "1"
    } else if d == 2 {
        "2"
    } else if d == 3 {
        "3"
    } else if d == 4 {
        "4"
    } else if d == 5 {
        "5"
    } else if d == 6 {
        "6"
    } else if d == 7 {
        "7"
    } else if d == 8 {
        "8"
    } else {
        "9"
    };
    assert(r@ =~= seq![digit_char(d as nat)]);
    r
}

/// Appends the decimal digits of `n`.
pub fn append_decimal(s: &mut String, n: u64)
    ensures
        final(s)@ == old(s)@ + decimal(n as nat),
    decreases n,
{
    if n >= 10 {
        append_decimal(s, n / 10);
    }
    let d = digit_str((n % 10) as u32);
    s.append(d);
    proof {
        if n >= 10 {
            assert(decimal(n as nat) == decimal((n / 10) as nat).push(digit_char((n % 10) as nat)));
        }
        assert(final(s)@ =~= old(s)@ + decimal(n as nat));
    }
}

/// Appends the decimal text of a signed `n`.
pub fn append_signed_decimal(s: &mut String, n: i32)
    ensures
        final(s)@ == old(s)@ + signed_decimal(n as int),
{
    if n < 0 {
        proof {
            reveal_strlit("-");
        }
        s.append("-");
        let magnitude: u64 = (0i64 - n as i64) as u64;
        append_decimal(s, magnitude);
        assert(final(s)@ =~= old(s)@ + signed_decimal(n as int));
    } else {
        append_decimal(s, n as u64);
    }
}

impl AudioError {
    /// An error of the given kind with a plain message.
    pub fn with_msg(kind: ErrorKind, msg: &str) -> (r: AudioError)
        ensures
            r.kind == kind,
            r.msg@ == msg@,
    {
        AudioError { msg: String::from_str(msg), kind }
    }

    /// The error of a hardware call described by `msg` that returned `status`,
    /// whose explanation is `status_msg`.
    pub fn with_status_msg(msg: &str, status_msg: &str, status: OSStatus) -> (r: AudioError)
        ensures
            r.kind == ErrorKind::Hardware(status),
            r.msg@ == status_error_text(msg@, status_msg@, status),
    {
        let mut text = String::from_str(msg);
        text.append(": ");
        text.append(status_msg);
        text.append("[OSStatus: ");
        append_signed_decimal(&mut text, status);
        text.append("]");
        assert(text@ =~= status_error_text(msg@, status_msg@, status));
        AudioError { msg: text, kind: ErrorKind::Hardware(status) }
    }

    /// The status a failed hardware call returned, if this is such a failure.
    pub fn os_status(&self) -> (r: Option<OSStatus>)
        ensures
            r == (match self.kind {
                ErrorKind::Hardware(s) => Some(s),
                _ => None,
            }),
    {
        match self.kind {
            ErrorKind::Hardware(s) => Some(s),
            _ => None,
        }
    }
}

/// Turns the status of the hardware call described by `msg` into a result:
/// success only for the no-error status.
pub fn check_status(msg: &str, status: OSStatus) -> (r: Result<(), AudioError>)
    ensures
        r is Ok <==> status == K_AUDIO_HARDWARE_NO_ERROR,
        r is Err ==> is_hardware_error(r->Err_0, msg@, status),
{
    if status != K_AUDIO_HARDWARE_NO_ERROR {
        Err(AudioError::with_status_msg(msg, err_msg_hardware_status(status), status))
    } else {
        Ok(())
    }
}

} // verus!
