use vstd::prelude::*;
use vstd::string::StringExecFns;

verus! {

/// Everything that can go wrong while resolving the input or rendering
/// the checksum. Input/output failures around files and the standard
/// input stream arise outside this library and are reported there.
#[derive(Debug)]
pub enum Error {
    /// A file path and a bech32 string were supplied together.
    Conflict,
    /// The supplied bech32 string failed to decode; the payload is the
    /// decoder's description of the failure.
    Bech32(String),
    /// The mnemonic encoder produced bytes that are not valid UTF-8,
    /// a breach of its contract.
    Utf8,
}

/// The one-line diagnostic that each error carries.
pub open spec fn message_of(e: Error) -> Seq<char> {
    match e {
        Error::Conflict => "an input file cannot be combined with a bech32 string"@,
        Error::Bech32(m) => "incorrect bech32(m) string due to "@ + m@,
        Error::Utf8 => "mnemonic encoder produced invalid utf-8"@,
    }
}

impl Error {
    /// Render the error as its one-line diagnostic.
    pub fn message(&self) -> (r: String)
        ensures
            r@ == message_of(*self),
    {
        match self {
            Error::Conflict => String::from_str("an input file cannot be combined with a bech32 string"),
            Error::Bech32(m) => String::from_str("incorrect bech32(m) string due to ").concat(
                m.as_str(),
            ),
            Error::Utf8 => String::from_str("mnemonic encoder produced invalid utf-8"),
        }
    }
}

} // verus!
