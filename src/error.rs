//! The three kinds of failure that an operation reports.
use vstd::prelude::*;
use vstd::string::StringExecFns;
use crate::decode::{DecodeError, field_name};

verus! {

/// Why a request did not complete.
#[derive(Debug)]
pub enum TransportError {
    /// The server answered with a status outside 200 to 399.
    Status(u16),
    /// No answer came: connection refused, timeout and the like.
    Connection(String),
}

/// The failure of one operation.
#[derive(Debug)]
pub enum QuranApiError {
    /// The network call did not complete successfully; retrying may help.
    Http(TransportError),
    /// The server answered, but the body did not have the expected shape.
    Deserialization(DecodeError),
    /// Any other failure, described in words.
    Other(String),
}

impl From<TransportError> for QuranApiError {
    fn from(err: TransportError) -> (r: QuranApiError)
        ensures
            r == QuranApiError::Http(err),
    {
        QuranApiError::Http(err)
    }
}

impl vstd::std_specs::convert::FromSpecImpl<TransportError> for QuranApiError {
    open spec fn obeys_from_spec() -> bool {
        true
    }

    open spec fn from_spec(err: TransportError) -> QuranApiError {
        QuranApiError::Http(err)
    }
}

impl From<DecodeError> for QuranApiError {
    fn from(err: DecodeError) -> (r: QuranApiError)
        ensures
            r == QuranApiError::Deserialization(err),
    {
        QuranApiError::Deserialization(err)
    }
}

impl vstd::std_specs::convert::FromSpecImpl<DecodeError> for QuranApiError {
    open spec fn obeys_from_spec() -> bool {
        true
    }

    open spec fn from_spec(err: DecodeError) -> QuranApiError {
        QuranApiError::Deserialization(err)
    }
}

/// The text of one decimal digit.
pub open spec fn digit_text(d: nat) -> Seq<char> {
    if d == 0 {
        "0"@
    } else if d == 1 {
        "1"@
    } else if d == 2 {
        "2"@
    } else if d == 3 {
        "3"@
    } else if d == 4 {
        "4"@
    } else if d == 5 {
        "5"@
    } else if d == 6 {
        "6"@
    } else if d == 7 {
        "7"@
    } else if d == 8 {
        "8"@
    } else {
        "9"@
    }
}

/// `n` written in decimal, without leading zeros.
pub open spec fn decimal(n: nat) -> Seq<char>
    decreases n,
{
    if n < 10 {
        digit_text(n)
    } else {
        decimal(n / 10) + digit_text(n % 10)
    }
}

fn digit(d: u16) -> (r: &'static str)
    requires
        d < 10,
    ensures
        r@ == digit_text(d as nat),
{
    match d {
        0 => "0",
        1 => "1",
        2 => "2",
        3 => "3",
        4 => "4",
        5 => "5",
        6 => "6",
        7 => "7",
        8 => "8",
        _ => "9",
    }
}

fn append_decimal(out: &mut String, n: u16)
    ensures
        final(out)@ == old(out)@ + decimal(n as nat),
    decreases n,
{
    if n >= 10 {
        append_decimal(out, n / 10);
    }
    out.append(digit(n % 10));
    assert(final(out)@ =~= old(out)@ + decimal(n as nat));
}

/// The description of a decoding failure.
pub open spec fn decode_error_text(e: DecodeError) -> Seq<char> {
    match e {
        DecodeError::Syntax(m) => "invalid JSON: "@ + m@,
        DecodeError::ExpectedObject => "expected an object"@,
        DecodeError::MissingField(f) => "missing field "@ + field_name(f),
        DecodeError::InvalidType(f) => "invalid value in field "@ + field_name(f),
    }
}

/// The description of a failure, headed by its kind.
pub open spec fn error_text(e: QuranApiError) -> Seq<char> {
    match e {
        QuranApiError::Http(TransportError::Status(s)) => "HTTP error: status "@ + decimal(s as nat),
        QuranApiError::Http(TransportError::Connection(m)) => "HTTP error: "@ + m@,
        QuranApiError::Deserialization(d) => "Deserialization error: "@ + decode_error_text(d),
        QuranApiError::Other(m) => "Other error: "@ + m@,
    }
}

impl DecodeError {
    /// A one-line description of this failure.
    pub fn to_string(&self) -> (r: String)
        ensures
            r@ == decode_error_text(*self),
    {
        match self {
            DecodeError::Syntax(m) => {
                let mut r = "invalid JSON: ".to_string();
                r.append(m.as_str());
                r
            },
            DecodeError::ExpectedObject => "expected an object".to_string(),
            DecodeError::MissingField(f) => {
                let mut r = "missing field ".to_string();
                r.append(f.name().as_str());
                r
            },
            DecodeError::InvalidType(f) => {
                let mut r = "invalid value in field ".to_string();
                r.append(f.name().as_str());
                r
            },
        }
    }
}

impl QuranApiError {
    /// A one-line description of this failure, for logs and messages.
    pub fn to_string(&self) -> (r: String)
        ensures
            r@ == error_text(*self),
    {
        match self {
            QuranApiError::Http(TransportError::Status(s)) => {
                let mut r = "HTTP error: status ".to_string();
                append_decimal(&mut r, *s);
                r
            },
            QuranApiError::Http(TransportError::Connection(m)) => {
                let mut r = "HTTP error: ".to_string();
                r.append(m.as_str());
                r
            },
            QuranApiError::Deserialization(d) => {
                let mut r = "Deserialization error: ".to_string();
                r.append(d.to_string().as_str());
                r
            },
            QuranApiError::Other(m) => {
                let mut r = "Other error: ".to_string();
                r.append(m.as_str());
                r
            },
        }
    }
}

} // verus!
