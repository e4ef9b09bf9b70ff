//! What can go wrong while opening a database or looking up an address.
use vstd::prelude::*;
use vstd::string::StringExecFns;

verus! {

/// Errors reported while opening a database or looking up an address.
#[derive(Debug, PartialEq, Eq)]
pub enum Error {
    /// A structural anomaly, with a description.
    GenericError(String),
    /// The file could not be opened or mapped.
    IoError(String),
    /// The file is a database, but no range holds the address.
    RecordNotFound,
    /// The header names neither family.
    UnknownDb,
    /// The header's year and product code do not form a supported pair.
    InvalidBinDatabase(u8, u8),
    /// The address could not be parsed.
    InvalidIP(String),
    /// A read escaped the file: it is truncated or malformed.
    OutOfBounds,
}

/// The text of the decimal digit `d`.
pub open spec fn digit_text(d: int) -> Seq<char> {
    if d == 0 {
        "0"@
    } else if d == 1 {
        "1"@
    } else if d == 2 {
        "2"@
    } else if d == 3 {
        "3"@
    } else if d == 4 {
        "4"@
    } else if d == 5 {
        "5"@
    } else if d == 6 {
        "6"@
    } else if d == 7 {
        "7"@
    } else if d == 8 {
        "8"@
    } else {
        "9"@
    }
}

/// `n` written in decimal, without leading zeros.
pub open spec fn decimal_text(n: nat) -> Seq<char>
    decreases n,
{
    if n < 10 {
        digit_text(n as int)
    } else {
        decimal_text(n / 10) + digit_text((n % 10) as int)
    }
}

/// The message that describes an error.
pub open spec fn error_message(e: &Error) -> Seq<char> {
    match e {
        Error::GenericError(msg) => "GenericError: "@ + msg@,
        Error::IoError(msg) => "IoError: "@ + msg@,
        Error::RecordNotFound => "RecordNotFound: no record found"@,
        Error::UnknownDb => "Unknown database: Database type should be Proxy or Location"@,
        Error::InvalidBinDatabase(y, p) => "Invalid Bin Database: "@ + decimal_text(*y as nat) + " "@
            + decimal_text(*p as nat),
        Error::InvalidIP(msg) => "InvalidIP: "@ + msg@,
        Error::OutOfBounds => "OutOfBounds: a read fell outside the database file"@,
    }
}

fn digit(d: u8) -> (r: &'static str)
    requires
        d < 10,
    ensures
        r@ == digit_text(d as int),
{
    if d == 0 {
        "0"
    } else if d == 1 {
        "1"
    } else if d == 2 {
        "2"
    } else if d == 3 {
        "3"
    } else if d == 4 {
        "4"
    } else if d == 5 {
        "5"
    } else if d == 6 {
        "6"
    } else if d == 7 {
        "7"
    } else if d == 8 {
        "8"
    } else {
        "9"
    }
}

/// `n` written in decimal.
pub fn decimal(n: u8) -> (r: String)
    ensures
        r@ == decimal_text(n as nat),
    decreases n,
{
    if n < 10 {
        String::from_str(digit(n))
    } else {
        let s = decimal(n / 10);
        s.concat(digit(n % 10))
    }
}

impl Error {
    /// The message that describes the error.
    pub fn message(&self) -> (r: String)
        ensures
            r@ == error_message(self),
    {
        match self {
            Error::GenericError(msg) => String::from_str("GenericError: ").concat(msg.as_str()),
            Error::IoError(msg) => String::from_str("IoError: ").concat(msg.as_str()),
            Error::RecordNotFound => String::from_str("RecordNotFound: no record found"),
            Error::UnknownDb => String::from_str(
                "Unknown database: Database type should be Proxy or Location",
            ),
            Error::InvalidBinDatabase(y, p) => {
                let s = String::from_str("Invalid Bin Database: ").concat(decimal(*y).as_str());
                let s = s.concat(" ");
                s.concat(decimal(*p).as_str())
            },
            Error::InvalidIP(msg) => String::from_str("InvalidIP: ").concat(msg.as_str()),
            Error::OutOfBounds => String::from_str(
                "OutOfBounds: a read fell outside the database file",
            ),
        }
    }
}

} // verus!
