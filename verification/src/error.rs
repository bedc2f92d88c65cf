//! The typed failures that a fact query can report.

use vstd::prelude::*;
use vstd::string::*;

verus! {

/// Why a fact query failed.
///
/// Unrecognized classification values are never reported through this type:
/// they are successes carrying an `Unknown` tag.  A query either returns a
/// normalized value or exactly one of these failures; only the device-name
/// fallback chain combines two, in [`Error::Chain`].
#[derive(Debug)]
pub enum Error {
    /// An expected record or file is absent.
    NotFound,
    /// A record is present but is not valid text or cannot be decoded.
    InvalidData,
    /// Structured text did not contain the required keys.
    Parse,
    /// A native call returned a failure status; the payload is the OS errno.
    Os(i32),
    /// Two fallback branches were attempted and both failed; both causes are
    /// kept, in the order in which the branches ran.
    Chain(Box<Error>, Box<Error>),
}

/// The character for one decimal digit.
pub open spec fn digit_char(d: nat) -> char {
    if d == 0 {
        '0'
    } else if d == 1 {
        '1'
    } else if d == 2 {
        '2'
    } else if d == 3 {
        '3'
    } else if d == 4 {
        '4'
    } else if d == 5 {
        '5'
    } else if d == 6 {
        '6'
    } else if d == 7 {
        '7'
    } else if d == 8 {
        '8'
    } else {
        '9'
    }
}

/// The decimal spelling of `n`, most significant digit first.
pub open spec fn decimal_digits(n: nat) -> Seq<char>
    decreases n,
{
    if n < 10 {
        seq![digit_char(n)]
    } else {
        decimal_digits(n / 10) + seq![digit_char(n % 10)]
    }
}

/// The decimal spelling of an OS error code, sign included.
pub open spec fn code_digits(c: i32) -> Seq<char> {
    if c >= 0 {
        decimal_digits(c as nat)
    } else {
        seq!['-'] + decimal_digits((-(c as int)) as nat)
    }
}

/// The text that [`Error::message`] returns, as a function of the error.
pub open spec fn message_spec(e: Error) -> Seq<char>
    decreases e,
{
    match e {
        Error::NotFound => "missing record"@,
        Error::InvalidData => "invalid data in record"@,
        Error::Parse => "parsing failed"@,
        Error::Os(c) => "os error "@ + code_digits(c),
        Error::Chain(a, b) => message_spec(*a) + "; "@ + message_spec(*b),
    }
}

fn digit_str(d: u32) -> (r: &'static str)
    requires
        d < 10,
    ensures
        r@ == seq![digit_char(d as nat)],
{
    proof {
        reveal_strlit("0");
        reveal_strlit("1");
        reveal_strlit("2");
        reveal_strlit("3");
        reveal_strlit("4");
        reveal_strlit("5");
        reveal_strlit("6");
        reveal_strlit("7");
        reveal_strlit("8");
        reveal_strlit("9");
    }
    let r: &'static str = if d == 0 {
        "0"
    } else if d == 1 {
        "1"
    } else if d == 2 {
        "2"
    } else if d == 3 {
        "3"
    } else if d == 4 {
        "4"
    } else if d == 5 {
        "5"
    } else if d == 6 {
        "6"
    } else if d == 7 {
        "7"
    } else if d == 8 {
        "8"
    } else {
        "9"
    };
    proof {
        assert(r@ =~= seq![digit_char(d as nat)]);
    }
    r
}

fn fmt_u32(n: u32) -> (r: String)
    ensures
        r@ == decimal_digits(n as nat),
    decreases n,
{
    if n < 10 {
        String::from_str(digit_str(n))
    } else {
        let mut out = fmt_u32(n / 10);
        out.append(digit_str(n % 10));
        out
    }
}

impl Error {
    /// A short human-readable description.  For a [`Error::Chain`] it names
    /// both underlying causes, separated by `"; "`.
    pub fn message(&self) -> (r: String)
        ensures
            r@ == message_spec(*self),
        decreases *self,
    {
        match self {
            Error::NotFound => "missing record".to_owned(),
            Error::InvalidData => "invalid data in record".to_owned(),
            Error::Parse => "parsing failed".to_owned(),
            Error::Os(code) => {
                let mut m = "os error ".to_owned();
                if *code >= 0 {
                    m.append(fmt_u32(*code as u32).as_str());
                } else {
                    proof {
                        reveal_strlit("-");
                    }
                    m.append("-");
                    let magnitude = (-(*code as i64)) as u32;
                    proof {
                        assert(magnitude as nat == (-(*code as int)) as nat);
                    }
                    m.append(fmt_u32(magnitude).as_str());
                    proof {
                        assert(m@ =~= "os error "@ + code_digits(*code));
                    }
                }
                m
            },
            Error::Chain(a, b) => {
                let mut m = a.message();
                m.append("; ");
                m.append(b.message().as_str());
                m
            },
        }
    }
}

} // verus!
