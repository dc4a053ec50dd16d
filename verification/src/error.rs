//! The error taxonomy shared by the parsers and by libc detection.

use vstd::prelude::*;
use vstd::string::StringExecFns;

verus! {

/// Everything that can go wrong while parsing a platform token or while
/// detecting the host libc.
#[derive(Debug)]
pub enum Error {
    /// The input matches no recognized operating-system token.
    UnknownOs(String),
    /// The input matches no recognized architecture-family token.
    UnknownArch(String),
    /// The input matches no recognized libc token.
    UnknownLibc(String),
    /// A valid variant suffix was paired with a family that takes no variant;
    /// the fields hold the variant token and the family's canonical name.
    UnsupportedVariant(String, String),
    /// The host libc probe failed; the field holds the probe's message.
    LibcDetectionError(String),
}

/// Abstract counterpart of [`Error`], over character sequences.
pub enum ErrorKind {
    UnknownOs(Seq<char>),
    UnknownArch(Seq<char>),
    UnknownLibc(Seq<char>),
    UnsupportedVariant(Seq<char>, Seq<char>),
    LibcDetectionError(Seq<char>),
}

impl View for Error {
    type V = ErrorKind;

    open spec fn view(&self) -> ErrorKind {
        match self {
            Error::UnknownOs(s) => ErrorKind::UnknownOs(s@),
            Error::UnknownArch(s) => ErrorKind::UnknownArch(s@),
            Error::UnknownLibc(s) => ErrorKind::UnknownLibc(s@),
            Error::UnsupportedVariant(v, f) => ErrorKind::UnsupportedVariant(v@, f@),
            Error::LibcDetectionError(m) => ErrorKind::LibcDetectionError(m@),
        }
    }
}

/// The message that [`Error::message`] renders for each abstract error.
pub open spec fn message_of(e: ErrorKind) -> Seq<char> {
    match e {
        ErrorKind::UnknownOs(s) => "Unknown operating system: "@ + s,
        ErrorKind::UnknownArch(s) => "Unknown architecture: "@ + s,
        ErrorKind::UnknownLibc(s) => "Unknown libc environment: "@ + s,
        ErrorKind::UnsupportedVariant(v, f) => "Unsupported variant `"@ + v
            + "` for architecture `"@ + f + "`"@,
        ErrorKind::LibcDetectionError(m) => m,
    }
}

impl Error {
    /// A human-readable description of the error.
    pub fn message(&self) -> (r: String)
        ensures
            r@ == message_of(self@),
    {
        match self {
            Error::UnknownOs(s) => String::from_str("Unknown operating system: ").concat(
                s.as_str(),
            ),
            Error::UnknownArch(s) => String::from_str("Unknown architecture: ").concat(s.as_str()),
            Error::UnknownLibc(s) => String::from_str("Unknown libc environment: ").concat(
                s.as_str(),
            ),
            Error::UnsupportedVariant(v, f) => {
                let r = String::from_str("Unsupported variant `").concat(v.as_str()).concat(
                    "` for architecture `",
                ).concat(f.as_str()).concat("`");
                proof {
                    assert(r@ =~= message_of(self@));
                }
                r
            },
            Error::LibcDetectionError(m) => String::from_str(m.as_str()),
        }
    }
}

} // verus!
