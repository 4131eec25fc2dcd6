//! The errors shared by the encoder, the decoder and the value adapter.

use vstd::prelude::*;
use vstd::string::StringExecFns;

verus! {

/// Why an encode or decode call was abandoned.
///
/// Every error is terminal for the call that returned it.
#[derive(Clone, Debug, PartialEq, Eq)]
pub enum Error {
    /// The input ended before the bytes that the format asks for.
    Io,
    /// A name or a string payload is not valid UTF-8.
    Utf8,
    /// A byte that names no tag type stood where a tag type was expected.
    UnknownTagType(u8),
    /// The shape of a value does not fit the place it was given for.
    WrongType,
    /// A list without elements has no element type and cannot be written.
    EmptySequence,
    /// The elements of one list are of more than one tag type.
    ElementTypesDiffer,
    /// A sequence was announced without its length.
    UnknownSize,
    /// A map value was given before any key.
    MissingKey,
    /// A length does not fit the length field of the format, or a length
    /// field read from the input is negative.
    InvalidLength,
    /// A builder was used after it had been ended.
    Ended,
    /// The value has no representation in the format; the text names the
    /// operation that refused it.
    Unsupported(String),
}

impl Error {
    /// True of `Unsupported` errors whose text is `what`.
    pub open spec fn is_unsupported(self, what: Seq<char>) -> bool {
        self matches Error::Unsupported(s) && s@ == what
    }
}

/// The error type of `String::from_utf8`. Nothing is claimed of its values:
/// each is mapped to [`Error::Utf8`].
#[verifier::external_type_specification]
#[verifier::external_body]
pub struct ExFromUtf8Error(std::string::FromUtf8Error);

/// `String::from_utf8` succeeds exactly on well-formed UTF-8, and the string
/// it returns then holds the characters that the bytes encode.
pub assume_specification[ std::string::String::from_utf8 ](vec: std::vec::Vec<u8>) -> (r: Result<
    std::string::String,
    std::string::FromUtf8Error,
>)
    ensures
        r is Ok <==> vstd::utf8::valid_utf8(vec@),
        r matches Ok(s) ==> s@ == vstd::utf8::decode_utf8(vec@),
;

impl From<std::string::FromUtf8Error> for Error {
    fn from(error: std::string::FromUtf8Error) -> (r: Error) {
        Error::Utf8
    }
}

impl vstd::std_specs::convert::FromSpecImpl<std::string::FromUtf8Error> for Error {
    open spec fn obeys_from_spec() -> bool {
        true
    }

    open spec fn from_spec(error: std::string::FromUtf8Error) -> Error {
        Error::Utf8
    }
}

/// The decimal digit for a number below ten.
pub open spec fn digit(d: nat) -> char {
    if d == 0 {
        '0'
    } else if d == 1 {
        '1'
    } else if d == 2 {
        '2'
    } else if d == 3 {
        '3'
    } else if d == 4 {
        '4'
    } else if d == 5 {
        '5'
    } else if d == 6 {
        '6'
    } else if d == 7 {
        '7'
    } else if d == 8 {
        '8'
    } else {
        '9'
    }
}

/// A number in decimal digits, without leading zeros.
pub open spec fn decimal(n: nat) -> Seq<char>
    decreases n,
{
    if n < 10 {
        seq![digit(n)]
    } else {
        decimal(n / 10).push(digit(n % 10))
    }
}

/// The text of a decimal digit.
fn digit_text(d: u8) -> (s: &'static str)
    requires
        d < 10,
    ensures
        s@ == seq![digit(d as nat)],
{
    proof {
        reveal_strlit("0");
        reveal_strlit("1");
        reveal_strlit("2");
        reveal_strlit("3");
        reveal_strlit("4");
        reveal_strlit("5");
        reveal_strlit("6");
        reveal_strlit("7");
        reveal_strlit("8");
        reveal_strlit("9");
    }
    let s = match d {
        0 => "0",
        1 => "1",
        2 => "2",
        3 => "3",
        4 => "4",
        5 => "5",
        6 => "6",
        7 => "7",
        8 => "8",
        _ => "9",
    };
    assert(s@ =~= seq![digit(d as nat)]);
    s
}

/// A byte in decimal digits.
pub fn decimal_text(n: u8) -> (s: String)
    ensures
        s@ == decimal(n as nat),
{
    if n < 10 {
        String::from_str(digit_text(n))
    } else if n < 100 {
        let s = String::from_str(digit_text(n / 10)).concat(digit_text(n % 10));
        proof {
            reveal_with_fuel(decimal, 2);
            assert(s@ =~= decimal(n as nat));
        }
        s
    } else {
        let s = String::from_str(digit_text(n / 100)).concat(digit_text(n / 10 % 10)).concat(
            digit_text(n % 10),
        );
        proof {
            reveal_with_fuel(decimal, 3);
            assert((n as nat / 10) / 10 == n as nat / 100);
            assert(s@ =~= decimal(n as nat));
        }
        s
    }
}

impl Error {
    /// What the error says, in words.
    pub open spec fn text(self) -> Seq<char> {
        match self {
            Error::Io => "IO error: unexpected end of input"@,
            Error::Utf8 => "UTF-8 error: invalid utf-8 sequence"@,
            Error::UnknownTagType(byte) => "Unknown tag type: "@ + decimal(byte as nat),
            Error::WrongType => "Wrong Type"@,
            Error::EmptySequence => "Empty sequence"@,
            Error::ElementTypesDiffer => "Element types differ"@,
            Error::UnknownSize => "Size must be specified"@,
            Error::MissingKey => "Missing key"@,
            Error::InvalidLength => "Length does not fit its field"@,
            Error::Ended => "Already ended"@,
            Error::Unsupported(name) => "Unsupported method: "@ + name@,
        }
    }

    /// What the error says, in words.
    pub fn message(&self) -> (s: String)
        ensures
            s@ == self.text(),
    {
        match self {
            Error::Io => String::from_str("IO error: unexpected end of input"),
            Error::Utf8 => String::from_str("UTF-8 error: invalid utf-8 sequence"),
            Error::UnknownTagType(byte) => {
                let digits = decimal_text(*byte);
                String::from_str("Unknown tag type: ").concat(digits.as_str())
            },
            Error::WrongType => String::from_str("Wrong Type"),
            Error::EmptySequence => String::from_str("Empty sequence"),
            Error::ElementTypesDiffer => String::from_str("Element types differ"),
            Error::UnknownSize => String::from_str("Size must be specified"),
            Error::MissingKey => String::from_str("Missing key"),
            Error::InvalidLength => String::from_str("Length does not fit its field"),
            Error::Ended => String::from_str("Already ended"),
            Error::Unsupported(name) => String::from_str("Unsupported method: ").concat(
                name.as_str(),
            ),
        }
    }
}

} // verus!
