//! Canonical operating-system identity.

use vstd::prelude::*;
use vstd::string::StrSliceExecFns;
use vstd::string::StringExecFns;
use crate::error::{Error, ErrorKind};
use crate::strutil::str_eq;

verus! {

/// What the rest of the crate reads of an operating-system identity, beyond
/// its canonical name.
#[derive(Debug, Eq, PartialEq, Structural, Clone, Copy, Hash)]
pub enum OsKind {
    /// The Darwin/macOS core operating system, with or without a version.
    Darwin,
    Windows,
    Linux,
    /// The unknown sentinel of the vocabulary; never a valid parse result.
    Unknown,
    /// Any other recognized operating system.
    Other,
}

/// Abstract value of an [`Os`]: its kind and its canonical name.
pub struct OsV {
    pub kind: OsKind,
    pub name: Seq<char>,
}

/// A canonical operating-system identity drawn from the architecture-triple
/// vocabulary.
#[derive(Debug, Hash)]
pub struct Os {
    pub kind: OsKind,
    pub name: String,
}

impl View for Os {
    type V = OsV;

    open spec fn view(&self) -> OsV {
        OsV { kind: self.kind, name: self.name@ }
    }
}

/// The operating system the vocabulary assigns to a token, as its kind and
/// canonical name, or `None` when the token is not recognized.
pub uninterp spec fn lexicon_os(s: Seq<char>) -> Option<OsV>;

/// Relies on `target_lexicon::OperatingSystem`: `from_str` for the token
/// vocabulary and `into_str` (through `to_string`) for the canonical name.
/// Its source shows that the canonical name of every recognized value parses
/// back to that same value, that exactly the unknown sentinel is named
/// `unknown`, and that no canonical name is `macos`.
#[verifier::external_body]
fn lexicon_parse_os(s: &str) -> (r: Option<Os>)
    ensures
        r matches Some(o) ==> lexicon_os(s@) == Some(o@),
        r is None ==> lexicon_os(s@) is None,
        r matches Some(o) ==> lexicon_os(o@.name) == Some(o@),
        r matches Some(o) ==> (o@.kind == OsKind::Unknown <==> o@.name == "unknown"@),
        r matches Some(o) ==> o@.name != "macos"@,
{
    let os = match <target_lexicon::OperatingSystem as core::str::FromStr>::from_str(s) {
        Ok(os) => os,
        Err(()) => return None,
    };
    let kind = match os {
        target_lexicon::OperatingSystem::Darwin(_) => OsKind::Darwin,
        target_lexicon::OperatingSystem::Windows => OsKind::Windows,
        target_lexicon::OperatingSystem::Linux => OsKind::Linux,
        target_lexicon::OperatingSystem::Unknown => OsKind::Unknown,
        _ => OsKind::Other,
    };
    Some(Os { kind, name: os.to_string() })
}

/// Relies on `target_lexicon::HOST.operating_system`, the operating system
/// this library was built for, and on `into_str` (through `to_string`) for
/// its canonical name. Which value comes back depends on the build target
/// and may not be pinned down, so the clauses state only what the source
/// shows of every value in the vocabulary: its canonical name re-parses to
/// that same value, exactly the unknown sentinel is named `unknown`, and no
/// canonical name is `macos`.
#[verifier::external_body]
fn lexicon_host_os() -> (r: Os)
    ensures
        lexicon_os(r@.name) == Some(r@),
        (r@.kind == OsKind::Unknown <==> r@.name == "unknown"@),
        r@.name != "macos"@,
{
    let os = target_lexicon::HOST.operating_system;
    let kind = match os {
        target_lexicon::OperatingSystem::Darwin(_) => OsKind::Darwin,
        target_lexicon::OperatingSystem::Windows => OsKind::Windows,
        target_lexicon::OperatingSystem::Linux => OsKind::Linux,
        target_lexicon::OperatingSystem::Unknown => OsKind::Unknown,
        _ => OsKind::Other,
    };
    Os { kind, name: os.to_string() }
}

/// The operating system a token denotes: the literal `macos` is an alias of
/// the unversioned Darwin identity, every other token is resolved through the
/// vocabulary, and the unknown sentinel is rejected.
pub open spec fn os_token(s: Seq<char>) -> Option<OsV> {
    if s == "macos"@ {
        Some(OsV { kind: OsKind::Darwin, name: "darwin"@ })
    } else {
        match lexicon_os(s) {
            Some(o) => if o.kind == OsKind::Unknown {
                None
            } else {
                Some(o)
            },
            None => None,
        }
    }
}

/// The canonical display form: every Darwin identity formats as `macos`, all
/// others format as their canonical name.
pub open spec fn os_format(o: OsV) -> Seq<char> {
    if o.kind == OsKind::Darwin {
        "macos"@
    } else {
        o.name
    }
}

impl Os {
    /// Strict parse of an operating-system token.
    ///
    /// Formatting an accepted value reproduces it under re-parsing, except
    /// for a versioned Darwin token, whose version the `macos` display form
    /// does not carry.
    pub fn from_str(s: &str) -> (r: Result<Os, Error>)
        ensures
            r matches Ok(o) ==> os_token(s@) == Some(o@),
            r matches Err(e) ==> os_token(s@) is None && e@ == ErrorKind::UnknownOs(s@),
            r matches Ok(o) ==> ((o@.kind == OsKind::Darwin ==> o@.name == "darwin"@)
                ==> os_token(os_format(o@)) == Some(o@)),
    {
        if str_eq(s, "macos") {
            Ok(Os { kind: OsKind::Darwin, name: String::from_str("darwin") })
        } else {
            match lexicon_parse_os(s) {
                Some(o) => {
                    if o.kind == OsKind::Unknown {
                        Err(Error::UnknownOs(String::from_str(s)))
                    } else {
                        Ok(o)
                    }
                },
                None => Err(Error::UnknownOs(String::from_str(s))),
            }
        }
    }

    /// The canonical display form of this identity.
    pub fn format(&self) -> (r: String)
        ensures
            r@ == os_format(self@),
    {
        if self.kind == OsKind::Darwin {
            String::from_str("macos")
        } else {
            self.name.clone()
        }
    }

    /// The operating system this library was built for. Which identity that
    /// is depends on the build target; what is promised is that the result
    /// is coherent: its name is the canonical name of the value it denotes
    /// in the vocabulary, so re-parsing the name reproduces the result.
    pub fn from_env() -> (r: Os)
        ensures
            lexicon_os(r@.name) == Some(r@),
            (r@.kind == OsKind::Unknown <==> r@.name == "unknown"@),
            r@.name != "macos"@,
            r@.kind != OsKind::Unknown ==> os_token(r@.name) == Some(r@),
    {
        lexicon_host_os()
    }

    /// The kind of this identity.
    pub fn kind(&self) -> (r: OsKind)
        ensures
            r == self@.kind,
    {
        self.kind
    }

    /// The canonical name of this identity in the vocabulary.
    pub fn name(&self) -> (r: &str)
        ensures
            r@ == self@.name,
    {
        self.name.as_str()
    }
}

impl PartialEq for Os {
    fn eq(&self, other: &Os) -> (r: bool) {
        self.kind == other.kind && str_eq(self.name.as_str(), other.name.as_str())
    }
}

impl vstd::std_specs::cmp::PartialEqSpecImpl for Os {
    open spec fn obeys_eq_spec() -> bool {
        true
    }

    open spec fn eq_spec(&self, other: &Os) -> bool {
        self@ == other@
    }
}

} // verus!
