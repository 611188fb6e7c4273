//! The error type of the encoder and the status codes of SVT-AV1 that it carries.

use vstd::prelude::*;
use vstd::string::*;

verus! {

/// `EB_ErrorNone` of SVT-AV1's `EbErrorType`: the call succeeded.
pub const EB_ERROR_NONE: i32 = 0;

/// `EB_ErrorBadParameter` of SVT-AV1's `EbErrorType` (`0x80001005` read as a signed 32-bit value).
pub const EB_ERROR_BAD_PARAMETER: i32 = -2147479547;

/// `EB_NoErrorEmptyQueue` of SVT-AV1's `EbErrorType` (`0x80002033` read as a signed 32-bit value):
/// no packet is ready yet.
pub const EB_NO_ERROR_EMPTY_QUEUE: i32 = -2147475405;

/// An error: the name of the step that failed and the SVT-AV1 status code it reported.
#[derive(Debug)]
pub struct Error {
    function: &'static str,
    code: i32,
}

/// What an error says: the failed step and the status code.
pub struct ErrorView {
    pub function: Seq<char>,
    pub code: i32,
}

impl View for Error {
    type V = ErrorView;

    closed spec fn view(&self) -> ErrorView {
        ErrorView { function: self.function@, code: self.code }
    }
}

impl Error {
    /// Turns a status code into a result: `Ok` exactly for `EB_ERROR_NONE`,
    /// otherwise an error that names `function` and keeps `code`.
    pub fn check(code: i32, function: &'static str) -> (r: Result<(), Error>)
        ensures
            r is Ok <==> code == EB_ERROR_NONE,
            r matches Err(e) ==> e@.code == code && e@.function == function@,
    {
        if code == EB_ERROR_NONE {
            Ok(())
        } else {
            Err(Error { function, code })
        }
    }

    /// An error with the code `EB_ERROR_BAD_PARAMETER` for the given step.
    pub fn bad_parameter(function: &'static str) -> (e: Error)
        ensures
            e@.code == EB_ERROR_BAD_PARAMETER,
            e@.function == function@,
    {
        Error { function, code: EB_ERROR_BAD_PARAMETER }
    }

    /// The name of the step that failed.
    pub fn function(&self) -> (r: &'static str)
        ensures
            r@ == self@.function,
    {
        self.function
    }

    /// The text of the error: the failed step, `"() failed: code="`, then the status code
    /// in decimal.
    pub fn message(&self) -> (r: String)
        ensures
            r@ == error_text(self@),
    {
        let mut s = String::from_str(self.function);
        s.append("() failed: code=");
        if self.code < 0 {
            s.append("-");
            proof {
                reveal_strlit("-");
            }
            let magnitude: u64 = (0i64 - self.code as i64) as u64;
            append_decimal(&mut s, magnitude);
        } else {
            append_decimal(&mut s, self.code as u64);
        }
        s
    }

    /// The SVT-AV1 status code.
    pub fn code(&self) -> (r: i32)
        ensures
            r == self@.code,
    {
        self.code
    }
}

/// The decimal digit `d` (below ten).
pub open spec fn digit_char(d: nat) -> char {
    if d == 0 {
        '0'
    } else if d == 1 {
        '1'
    } else if d == 2 {
        '2'
    } else if d == 3 {
        '3'
    } else if d == 4 {
        '4'
    } else if d == 5 {
        '5'
    } else if d == 6 {
        '6'
    } else if d == 7 {
        '7'
    } else if d == 8 {
        '8'
    } else {
        '9'
    }
}

/// `n` written in decimal, without leading zeros.
pub open spec fn decimal(n: nat) -> Seq<char>
    decreases n,
{
    if n < 10 {
        seq![digit_char(n)]
    } else {
        decimal(n / 10).push(digit_char(n % 10))
    }
}

/// `n` written in decimal, with a minus sign when it is negative.
pub open spec fn signed_decimal(n: int) -> Seq<char> {
    if n < 0 {
        seq!['-'] + decimal((-n) as nat)
    } else {
        decimal(n as nat)
    }
}

/// What an error says in words: `<step>() failed: code=<code>`.
pub open spec fn error_text(e: ErrorView) -> Seq<char> {
    e.function + "() failed: code="@ + signed_decimal(e.code as int)
}

/// The decimal digit `d` as a string.
fn digit_str(d: u64) -> (r: &'static str)
    requires
        d < 10,
    ensures
        r@ == seq![digit_char(d as nat)],
{
    proof {
        reveal_strlit("0");
        reveal_strlit("1");
        reveal_strlit("2");
        reveal_strlit("3");
        reveal_strlit("4");
        reveal_strlit("5");
        reveal_strlit("6");
        reveal_strlit("7");
        reveal_strlit("8");
        reveal_strlit("9");
    }
    if d == 0 {
        "0"
    } else if d == 1 {
        "1"
    } else if d == 2 {
        "2"
    } else if d == 3 {
        "3"
    } else if d == 4 {
        "4"
    } else if d == 5 {
        "5"
    } else if d == 6 {
        "6"
    } else if d == 7 {
        "7"
    } else if d == 8 {
        "8"
    } else {
        "9"
    }
}

/// Appends `n` in decimal to `s`.
fn append_decimal(s: &mut String, n: u64)
    ensures
        final(s)@ == old(s)@ + decimal(n as nat),
    decreases n,
{
    if n >= 10 {
        append_decimal(s, n / 10);
    }
    s.append(digit_str(n % 10));
    assert(s@ =~= old(s)@ + decimal(n as nat)) by {
        reveal_with_fuel(decimal, 2);
    }
}

} // verus!
