//! The libc flavor of a platform, and its detection from the live host.

use vstd::prelude::*;
use vstd::string::StringExecFns;
use crate::error::{Error, ErrorKind};
use crate::strutil::str_eq;

verus! {

/// A specific libc environment a Linux binary can be linked against.
#[derive(Debug, Eq, PartialEq, Structural, Clone, Copy, Hash)]
pub enum LibcEnvironment {
    /// Plain glibc.
    Gnu,
    /// glibc with soft-float calling convention (32-bit ARM).
    Gnueabi,
    /// glibc with hard-float calling convention (32-bit ARM).
    Gnueabihf,
    /// musl.
    Musl,
}

/// The libc flavor of a platform: a specific environment, or none when no
/// libc concept applies (every non-Linux host).
#[derive(Debug, Eq, PartialEq, Structural, Clone, Copy, Hash)]
pub enum Libc {
    Specific(LibcEnvironment),
    NoLibc,
}

/// What the host libc version probe reports: a glibc-based host
/// ("manylinux") or a musl-based one ("musllinux"). The probe itself lives
/// outside this crate.
#[derive(Debug, Eq, PartialEq, Structural, Clone, Copy, Hash)]
pub enum LibcVersion {
    Manylinux,
    Musllinux,
}

/// The libc a token denotes: exactly the literals `gnu`, `gnueabi`,
/// `gnueabihf`, `musl` and `none`.
pub open spec fn libc_token(s: Seq<char>) -> Result<Libc, ErrorKind> {
    if s == "gnu"@ {
        Ok(Libc::Specific(LibcEnvironment::Gnu))
    } else if s == "gnueabi"@ {
        Ok(Libc::Specific(LibcEnvironment::Gnueabi))
    } else if s == "gnueabihf"@ {
        Ok(Libc::Specific(LibcEnvironment::Gnueabihf))
    } else if s == "musl"@ {
        Ok(Libc::Specific(LibcEnvironment::Musl))
    } else if s == "none"@ {
        Ok(Libc::NoLibc)
    } else {
        Err(ErrorKind::UnknownLibc(s))
    }
}

/// The canonical token of each libc flavor.
pub open spec fn libc_format(l: Libc) -> Seq<char> {
    match l {
        Libc::Specific(LibcEnvironment::Gnu) => "gnu"@,
        Libc::Specific(LibcEnvironment::Gnueabi) => "gnueabi"@,
        Libc::Specific(LibcEnvironment::Gnueabihf) => "gnueabihf"@,
        Libc::Specific(LibcEnvironment::Musl) => "musl"@,
        Libc::NoLibc => "none"@,
    }
}

/// Round trip: the canonical token of every libc flavor parses back to
/// exactly that flavor.
pub proof fn lemma_libc_round_trip(l: Libc)
    ensures
        libc_token(libc_format(l)) == Ok::<Libc, ErrorKind>(l),
{
    reveal_strlit("gnu");
    reveal_strlit("gnueabi");
    reveal_strlit("gnueabihf");
    reveal_strlit("musl");
    reveal_strlit("none");
    assert("gnu"@.len() == 3 && "gnueabi"@.len() == 7 && "gnueabihf"@.len() == 9 && "musl"@.len()
        == 4 && "none"@.len() == 4);
    assert("musl"@[0] != "none"@[0]);
}

/// The view of an optional override string.
pub open spec fn override_view(o: Option<&str>) -> Option<Seq<char>> {
    match o {
        Some(s) => Some(s@),
        None => None,
    }
}

/// The view of the probe outcome: the reported version, or the probe's
/// message on failure.
pub open spec fn probe_view(p: Result<LibcVersion, String>) -> Result<LibcVersion, Seq<char>> {
    match p {
        Ok(v) => Ok(v),
        Err(m) => Err(m@),
    }
}

/// The libc [`Libc::from_env`] selects, given what the host reports.
///
/// On every operating system but Linux no libc applies. On Linux a non-empty
/// override token wins unconditionally and is parsed strictly; otherwise the
/// probe decides: its failure is reported, a musl-based host selects musl
/// whatever the CPU, and a glibc-based host selects plain GNU except on the
/// 32-bit ARM families `arm`, `armv5te` and `armv7`, where the
/// floating-point probe picks the hard-float or soft-float environment and
/// its failure falls back to plain GNU.
pub open spec fn libc_detect(
    host_os: Seq<char>,
    host_arch: Seq<char>,
    libc_override: Option<Seq<char>>,
    probe: Result<LibcVersion, Seq<char>>,
    hard_float: Option<bool>,
) -> Result<Libc, ErrorKind> {
    if host_os != "linux"@ {
        Ok(Libc::NoLibc)
    } else {
        match libc_override {
            Some(o) => if o.len() > 0 {
                libc_token(o)
            } else {
                libc_probe_result(host_arch, probe, hard_float)
            },
            None => libc_probe_result(host_arch, probe, hard_float),
        }
    }
}

/// The libc selected from the probes alone, with no override in force.
pub open spec fn libc_probe_result(
    host_arch: Seq<char>,
    probe: Result<LibcVersion, Seq<char>>,
    hard_float: Option<bool>,
) -> Result<Libc, ErrorKind> {
    match probe {
        Err(m) => Err(ErrorKind::LibcDetectionError(m)),
        Ok(LibcVersion::Musllinux) => Ok(Libc::Specific(LibcEnvironment::Musl)),
        Ok(LibcVersion::Manylinux) => if host_arch == "arm"@ || host_arch == "armv5te"@
            || host_arch == "armv7"@ {
            match hard_float {
                Some(true) => Ok(Libc::Specific(LibcEnvironment::Gnueabihf)),
                Some(false) => Ok(Libc::Specific(LibcEnvironment::Gnueabi)),
                None => Ok(Libc::Specific(LibcEnvironment::Gnu)),
            }
        } else {
            Ok(Libc::Specific(LibcEnvironment::Gnu))
        },
    }
}

/// On every host but Linux no libc applies, whatever the override variable
/// or the probes report.
pub proof fn lemma_non_linux_no_libc(
    host_os: Seq<char>,
    host_arch: Seq<char>,
    libc_override: Option<Seq<char>>,
    probe: Result<LibcVersion, Seq<char>>,
    hard_float: Option<bool>,
)
    requires
        host_os != "linux"@,
    ensures
        libc_detect(host_os, host_arch, libc_override, probe, hard_float) == Ok::<
            Libc,
            ErrorKind,
        >(Libc::NoLibc),
{
}

/// On Linux a non-empty override token decides alone: the result is its
/// strict parse, whatever the probes report.
pub proof fn lemma_override_wins(
    host_arch: Seq<char>,
    libc_override: Seq<char>,
    probe: Result<LibcVersion, Seq<char>>,
    hard_float: Option<bool>,
)
    requires
        libc_override.len() > 0,
    ensures
        libc_detect("linux"@, host_arch, Some(libc_override), probe, hard_float) == libc_token(
            libc_override,
        ),
{
}

impl Libc {
    /// Strict parse of a libc token. Formatting an accepted value reproduces
    /// it under re-parsing.
    pub fn from_str(s: &str) -> (r: Result<Libc, Error>)
        ensures
            r matches Ok(l) ==> libc_token(s@) == Ok::<Libc, ErrorKind>(l),
            r matches Err(e) ==> libc_token(s@) == Err::<Libc, ErrorKind>(e@),
            r matches Ok(l) ==> libc_token(libc_format(l)) == Ok::<Libc, ErrorKind>(l),
    {
        proof {
            if libc_token(s@) is Ok {
                lemma_libc_round_trip(libc_token(s@)->Ok_0);
            }
        }
        if str_eq(s, "gnu") {
            Ok(Libc::Specific(LibcEnvironment::Gnu))
        } else if str_eq(s, "gnueabi") {
            Ok(Libc::Specific(LibcEnvironment::Gnueabi))
        } else if str_eq(s, "gnueabihf") {
            Ok(Libc::Specific(LibcEnvironment::Gnueabihf))
        } else if str_eq(s, "musl") {
            Ok(Libc::Specific(LibcEnvironment::Musl))
        } else if str_eq(s, "none") {
            Ok(Libc::NoLibc)
        } else {
            Err(Error::UnknownLibc(String::from_str(s)))
        }
    }

    /// The canonical token of this libc flavor.
    pub fn format(&self) -> (r: String)
        ensures
            r@ == libc_format(*self),
    {
        match self {
            Libc::Specific(LibcEnvironment::Gnu) => String::from_str("gnu"),
            Libc::Specific(LibcEnvironment::Gnueabi) => String::from_str("gnueabi"),
            Libc::Specific(LibcEnvironment::Gnueabihf) => String::from_str("gnueabihf"),
            Libc::Specific(LibcEnvironment::Musl) => String::from_str("musl"),
            Libc::NoLibc => String::from_str("none"),
        }
    }

    /// Selects the libc of the live host from what the host reports; see
    /// [`libc_detect`]. The caller passes the host operating-system and CPU
    /// tokens, the optional override variable, the libc version probe's
    /// outcome and the hardware floating-point probe's outcome.
    pub fn from_env(
        host_os: &str,
        host_arch: &str,
        libc_override: Option<&str>,
        probe: Result<LibcVersion, String>,
        hard_float: Option<bool>,
    ) -> (r: Result<Libc, Error>)
        ensures
            r matches Ok(l) ==> libc_detect(
                host_os@,
                host_arch@,
                override_view(libc_override),
                probe_view(probe),
                hard_float,
            ) == Ok::<Libc, ErrorKind>(l),
            r matches Err(e) ==> libc_detect(
                host_os@,
                host_arch@,
                override_view(libc_override),
                probe_view(probe),
                hard_float,
            ) == Err::<Libc, ErrorKind>(e@),
    {
        if !str_eq(host_os, "linux") {
            return Ok(Libc::NoLibc);
        }
        if let Some(o) = libc_override {
            if !o.is_empty() {
                return Self::from_str(o);
            }
        }
        match probe {
            Err(m) => Err(Error::LibcDetectionError(m)),
            Ok(LibcVersion::Musllinux) => Ok(Libc::Specific(LibcEnvironment::Musl)),
            Ok(LibcVersion::Manylinux) => {
                if str_eq(host_arch, "arm") || str_eq(host_arch, "armv5te") || str_eq(
                    host_arch,
                    "armv7",
                ) {
                    match hard_float {
                        Some(true) => Ok(Libc::Specific(LibcEnvironment::Gnueabihf)),
                        Some(false) => Ok(Libc::Specific(LibcEnvironment::Gnueabi)),
                        None => Ok(Libc::Specific(LibcEnvironment::Gnu)),
                    }
                } else {
                    Ok(Libc::Specific(LibcEnvironment::Gnu))
                }
            },
        }
    }

    /// Whether this flavor is musl.
    pub fn is_musl(&self) -> (r: bool)
        ensures
            r == (*self == Libc::Specific(LibcEnvironment::Musl)),
    {
        matches!(self, Libc::Specific(LibcEnvironment::Musl))
    }
}

} // verus!
