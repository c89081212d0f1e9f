use vstd::prelude::*;
use vstd::string::StringExecFns;

use crate::status::{FmodResult, code_of, is_known_code};

verus! {

/// A failure reported by a binding call.
#[derive(Debug)]
pub enum Error {
    /// The middleware answered with a non-success status.
    Fmod { function: String, code: i32, message: String },
    /// A value that should name a member of an enumeration did not.
    EnumBindgen { enumeration: String, value: String },
    /// A string handed back across the binding was not valid UTF-8.
    String,
    /// A string handed to the binding held an interior nul byte.
    StringNul,
    /// An FFT reading was asked of a DSP that is not an FFT.
    NotDspFft,
}

impl PartialEq for Error {
    fn eq(&self, o: &Error) -> (r: bool) {
        match (self, o) {
            (
                Error::Fmod { function: f1, code: c1, message: m1 },
                Error::Fmod { function: f2, code: c2, message: m2 },
            ) => *f1 == *f2 && *c1 == *c2 && *m1 == *m2,
            (
                Error::EnumBindgen { enumeration: e1, value: v1 },
                Error::EnumBindgen { enumeration: e2, value: v2 },
            ) => *e1 == *e2 && *v1 == *v2,
            (Error::String, Error::String) => true,
            (Error::StringNul, Error::StringNul) => true,
            (Error::NotDspFft, Error::NotDspFft) => true,
            _ => false,
        }
    }
}

impl vstd::std_specs::cmp::PartialEqSpecImpl for Error {
    open spec fn obeys_eq_spec() -> bool {
        true
    }

    open spec fn eq_spec(&self, o: &Error) -> bool {
        match (self, o) {
            (
                Error::Fmod { function: f1, code: c1, message: m1 },
                Error::Fmod { function: f2, code: c2, message: m2 },
            ) => f1@ == f2@ && c1 == c2 && m1@ == m2@,
            (
                Error::EnumBindgen { enumeration: e1, value: v1 },
                Error::EnumBindgen { enumeration: e2, value: v2 },
            ) => e1@ == e2@ && v1@ == v2@,
            (Error::String, Error::String) => true,
            (Error::StringNul, Error::StringNul) => true,
            (Error::NotDspFft, Error::NotDspFft) => true,
            _ => false,
        }
    }
}

/// `e` is the error that a failed call of `function` with status `code`
/// yields: the operation's name, the code as reported, and an empty message.
pub open spec fn is_status_error(e: Error, function: Seq<char>, code: int) -> bool {
    match e {
        Error::Fmod { function: f, code: c, message: m } => f@ == function && c == code
            && m@.len() == 0,
        _ => false,
    }
}

/// `e` reports that `value` names no member of `enumeration`.
pub open spec fn is_value_error(e: Error, enumeration: Seq<char>, value: int) -> bool {
    match e {
        Error::EnumBindgen { enumeration: n, value: v } => n@ == enumeration && v@ == decimal_of(
            value,
        ),
        _ => false,
    }
}

/// The character of a decimal digit.
pub open spec fn digit_char(d: int) -> char {
    if d == 0 {
        '0'
    } else if d == 1 {
        '1'
    } else if d == 2 {
        '2'
    } else if d == 3 {
        '3'
    } else if d == 4 {
        '4'
    } else if d == 5 {
        '5'
    } else if d == 6 {
        '6'
    } else if d == 7 {
        '7'
    } else if d == 8 {
        '8'
    } else {
        '9'
    }
}

/// The decimal digits of `n`, most significant first, without leading zeros.
pub open spec fn decimal_digits(n: nat) -> Seq<char>
    decreases n,
{
    if n < 10 {
        seq![digit_char(n as int)]
    } else {
        decimal_digits(n / 10).push(digit_char((n % 10) as int))
    }
}

/// The decimal text of an integer, with a leading `-` when it is negative.
pub open spec fn decimal_of(v: int) -> Seq<char> {
    if v < 0 {
        seq!['-'] + decimal_digits((-v) as nat)
    } else {
        decimal_digits(v as nat)
    }
}

/// The text that describes an error.
pub open spec fn describe_spec(e: Error) -> Seq<char> {
    match e {
        Error::Fmod { function, code, message } => function@ + ": "@ + message@ + " ("@
            + decimal_of(code as int) + ")"@,
        Error::EnumBindgen { enumeration, value } => "FMOD returns unexpected value "@ + value@
            + " for "@ + enumeration@ + " enum"@,
        Error::String => "invalid UTF-8 when converting C string"@,
        Error::StringNul => "nul byte was found in the middle, C strings can't contain it"@,
        Error::NotDspFft => "trying get FFT from DSP which not FFT"@,
    }
}

fn digit_str(d: u32) -> (s: &'static str)
    requires
        d < 10,
    ensures
        s@ == seq![digit_char(d as int)],
{
    let s = if d == 0 {
        "0"
    } else if d == 1 {
        "1"
    } else if d == 2 {
        "2"
    } else if d == 3 {
        "3"
    } else if d == 4 {
        "4"
    } else if d == 5 {
        "5"
    } else if d == 6 {
        "6"
    } else if d == 7 {
        "7"
    } else if d == 8 {
        "8"
    } else {
        "9"
    };
    proof {
        reveal_strlit("0");
        reveal_strlit("1");
        reveal_strlit("2");
        reveal_strlit("3");
        reveal_strlit("4");
        reveal_strlit("5");
        reveal_strlit("6");
        reveal_strlit("7");
        reveal_strlit("8");
        reveal_strlit("9");
    }
    assert(s@ =~= seq![digit_char(d as int)]);
    s
}

fn push_digits(s: &mut String, n: u32)
    ensures
        final(s)@ == old(s)@ + decimal_digits(n as nat),
    decreases n,
{
    if n >= 10 {
        push_digits(s, n / 10);
    }
    s.append(digit_str(n % 10));
    assert(final(s)@ =~= old(s)@ + decimal_digits(n as nat));
}

/// The decimal text of `v`.
pub fn decimal(v: i32) -> (s: String)
    ensures
        s@ == decimal_of(v as int),
{
    let mut s = String::new();
    if v < 0 {
        s.append("-");
        proof {
            reveal_strlit("-");
        }
        let magnitude: u32 = (-(v as i64)) as u32;
        push_digits(&mut s, magnitude);
        assert(s@ =~= decimal_of(v as int));
    } else {
        push_digits(&mut s, v as u32);
        assert(s@ =~= decimal_of(v as int));
    }
    s
}

impl Error {
    /// The error for a call of `function` that ended with status `code`.
    /// The middleware's own message text is not fetched, so the message is
    /// empty on every backend.
    pub fn from_status(function: &str, code: i32) -> (e: Error)
        ensures
            is_status_error(e, function@, code as int),
    {
        Error::Fmod { function: String::from_str(function), code, message: String::new() }
    }

    /// The error for a raw value that names no member of `enumeration`.
    pub fn unexpected_value(enumeration: &str, value: i32) -> (e: Error)
        ensures
            is_value_error(e, enumeration@, value as int),
    {
        Error::EnumBindgen { enumeration: String::from_str(enumeration), value: decimal(value) }
    }

    /// The status kind of a middleware failure; `None` for the other errors.
    pub fn kind(&self) -> (k: Option<FmodResult>)
        ensures
            match *self {
                Error::Fmod { code, .. } => k matches Some(r) && (if is_known_code(code as int) {
                    code_of(r) == code
                } else {
                    r == FmodResult::ErrUnknown
                }),
                _ => k is None,
            },
    {
        match self {
            Error::Fmod { code, .. } => Some(FmodResult::from_code(*code)),
            _ => None,
        }
    }

    /// The human-readable text of this error.
    pub fn describe(&self) -> (s: String)
        ensures
            s@ == describe_spec(*self),
    {
        match self {
            Error::Fmod { function, code, message } => {
                let mut s = function.clone();
                s.append(": ");
                s.append(message.as_str());
                s.append(" (");
                let digits = decimal(*code);
                s.append(digits.as_str());
                s.append(")");
                s
            },
            Error::EnumBindgen { enumeration, value } => {
                let mut s = String::from_str("FMOD returns unexpected value ");
                s.append(value.as_str());
                s.append(" for ");
                s.append(enumeration.as_str());
                s.append(" enum");
                s
            },
            Error::String => String::from_str("invalid UTF-8 when converting C string"),
            Error::StringNul => String::from_str(
                "nul byte was found in the middle, C strings can't contain it",
            ),
            Error::NotDspFft => String::from_str("trying get FFT from DSP which not FFT"),
        }
    }
}

} // verus!
