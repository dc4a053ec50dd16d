//! Architecture and operating-system identifiers as they appear in platform
//! compatibility tags, and their conversion to this crate's canonical types.

use vstd::prelude::*;
use vstd::string::StringExecFns;
use crate::arch::{Arch, ArchFamily, ArchFamilyV, ArchV, FamilyKind};
use crate::libc::{Libc, LibcEnvironment};
use crate::os::{Os, OsKind, OsV};

verus! {

/// A CPU architecture as named in platform compatibility tags.
#[derive(Debug, Eq, PartialEq, Structural, Clone, Copy, Hash)]
pub enum PlatformArch {
    Aarch64,
    Armv5TEL,
    Armv6L,
    Armv7L,
    S390X,
    Powerpc,
    Powerpc64,
    Powerpc64Le,
    X86,
    X86_64,
    LoongArch64,
    Riscv64,
    Wasm32,
}

/// An operating system as named in platform compatibility tags.
#[derive(Debug, Eq, PartialEq, Structural, Clone, Copy, Hash)]
pub enum PlatformOs {
    Dragonfly,
    FreeBsd,
    Haiku,
    Illumos,
    Macos,
    Manylinux,
    Musllinux,
    Android,
    NetBsd,
    OpenBsd,
    Windows,
    Pyodide,
}

/// The architecture value each tag architecture stands for; the names are
/// the canonical names of the vocabulary.
pub open spec fn arch_of_tag(value: PlatformArch) -> ArchV {
    let family = match value {
        PlatformArch::Aarch64 => ArchFamilyV { kind: FamilyKind::Aarch64, name: "aarch64"@ },
        PlatformArch::Armv5TEL => ArchFamilyV { kind: FamilyKind::Arm, name: "armv5te"@ },
        PlatformArch::Armv6L => ArchFamilyV { kind: FamilyKind::Arm, name: "armv6"@ },
        PlatformArch::Armv7L => ArchFamilyV { kind: FamilyKind::Arm, name: "armv7"@ },
        PlatformArch::S390X => ArchFamilyV { kind: FamilyKind::Other, name: "s390x"@ },
        PlatformArch::Powerpc => ArchFamilyV { kind: FamilyKind::Other, name: "powerpc"@ },
        PlatformArch::Powerpc64 => ArchFamilyV { kind: FamilyKind::Other, name: "powerpc64"@ },
        PlatformArch::Powerpc64Le => ArchFamilyV {
            kind: FamilyKind::Other,
            name: "powerpc64le"@,
        },
        PlatformArch::X86 => ArchFamilyV { kind: FamilyKind::I686, name: "i686"@ },
        PlatformArch::X86_64 => ArchFamilyV { kind: FamilyKind::X86_64, name: "x86_64"@ },
        PlatformArch::LoongArch64 => ArchFamilyV {
            kind: FamilyKind::Other,
            name: "loongarch64"@,
        },
        PlatformArch::Riscv64 => ArchFamilyV { kind: FamilyKind::Other, name: "riscv64"@ },
        PlatformArch::Wasm32 => ArchFamilyV { kind: FamilyKind::Other, name: "wasm32"@ },
    };
    ArchV { family, variant: None }
}

/// The operating-system value each tag operating system stands for; the
/// Linux flavors and Android all stand for Linux, and the Pyodide runtime
/// stands for Emscripten.
pub open spec fn os_of_tag(value: PlatformOs) -> OsV {
    match value {
        PlatformOs::Dragonfly => OsV { kind: OsKind::Other, name: "dragonfly"@ },
        PlatformOs::FreeBsd => OsV { kind: OsKind::Other, name: "freebsd"@ },
        PlatformOs::Haiku => OsV { kind: OsKind::Other, name: "haiku"@ },
        PlatformOs::Illumos => OsV { kind: OsKind::Other, name: "illumos"@ },
        PlatformOs::Macos => OsV { kind: OsKind::Darwin, name: "darwin"@ },
        PlatformOs::Manylinux => OsV { kind: OsKind::Linux, name: "linux"@ },
        PlatformOs::Musllinux => OsV { kind: OsKind::Linux, name: "linux"@ },
        PlatformOs::Android => OsV { kind: OsKind::Linux, name: "linux"@ },
        PlatformOs::NetBsd => OsV { kind: OsKind::Other, name: "netbsd"@ },
        PlatformOs::OpenBsd => OsV { kind: OsKind::Other, name: "openbsd"@ },
        PlatformOs::Windows => OsV { kind: OsKind::Windows, name: "windows"@ },
        PlatformOs::Pyodide => OsV { kind: OsKind::Other, name: "emscripten"@ },
    }
}

/// The libc each tag operating system implies: GNU for the glibc-based
/// Linux flavor, musl for the musl-based one, none elsewhere.
pub open spec fn libc_of_tag(value: PlatformOs) -> Libc {
    match value {
        PlatformOs::Manylinux => Libc::Specific(LibcEnvironment::Gnu),
        PlatformOs::Musllinux => Libc::Specific(LibcEnvironment::Musl),
        _ => Libc::NoLibc,
    }
}

impl Arch {
    /// The architecture a tag architecture stands for.
    pub fn from_platform(value: &PlatformArch) -> (r: Arch)
        ensures
            r@ == arch_of_tag(*value),
    {
        let family = match value {
            PlatformArch::Aarch64 => ArchFamily {
                kind: FamilyKind::Aarch64,
                name: String::from_str("aarch64"),
            },
            PlatformArch::Armv5TEL => ArchFamily {
                kind: FamilyKind::Arm,
                name: String::from_str("armv5te"),
            },
            PlatformArch::Armv6L => ArchFamily {
                kind: FamilyKind::Arm,
                name: String::from_str("armv6"),
            },
            PlatformArch::Armv7L => ArchFamily {
                kind: FamilyKind::Arm,
                name: String::from_str("armv7"),
            },
            PlatformArch::S390X => ArchFamily {
                kind: FamilyKind::Other,
                name: String::from_str("s390x"),
            },
            PlatformArch::Powerpc => ArchFamily {
                kind: FamilyKind::Other,
                name: String::from_str("powerpc"),
            },
            PlatformArch::Powerpc64 => ArchFamily {
                kind: FamilyKind::Other,
                name: String::from_str("powerpc64"),
            },
            PlatformArch::Powerpc64Le => ArchFamily {
                kind: FamilyKind::Other,
                name: String::from_str("powerpc64le"),
            },
            PlatformArch::X86 => ArchFamily {
                kind: FamilyKind::I686,
                name: String::from_str("i686"),
            },
            PlatformArch::X86_64 => ArchFamily {
                kind: FamilyKind::X86_64,
                name: String::from_str("x86_64"),
            },
            PlatformArch::LoongArch64 => ArchFamily {
                kind: FamilyKind::Other,
                name: String::from_str("loongarch64"),
            },
            PlatformArch::Riscv64 => ArchFamily {
                kind: FamilyKind::Other,
                name: String::from_str("riscv64"),
            },
            PlatformArch::Wasm32 => ArchFamily {
                kind: FamilyKind::Other,
                name: String::from_str("wasm32"),
            },
        };
        Arch { family, variant: None }
    }
}

impl Os {
    /// The operating system a tag operating system stands for.
    pub fn from_platform(value: &PlatformOs) -> (r: Os)
        ensures
            r@ == os_of_tag(*value),
    {
        match value {
            PlatformOs::Dragonfly => Os {
                kind: OsKind::Other,
                name: String::from_str("dragonfly"),
            },
            PlatformOs::FreeBsd => Os { kind: OsKind::Other, name: String::from_str("freebsd") },
            PlatformOs::Haiku => Os { kind: OsKind::Other, name: String::from_str("haiku") },
            PlatformOs::Illumos => Os { kind: OsKind::Other, name: String::from_str("illumos") },
            PlatformOs::Macos => Os { kind: OsKind::Darwin, name: String::from_str("darwin") },
            PlatformOs::Manylinux => Os { kind: OsKind::Linux, name: String::from_str("linux") },
            PlatformOs::Musllinux => Os { kind: OsKind::Linux, name: String::from_str("linux") },
            PlatformOs::Android => Os { kind: OsKind::Linux, name: String::from_str("linux") },
            PlatformOs::NetBsd => Os { kind: OsKind::Other, name: String::from_str("netbsd") },
            PlatformOs::OpenBsd => Os { kind: OsKind::Other, name: String::from_str("openbsd") },
            PlatformOs::Windows => Os { kind: OsKind::Windows, name: String::from_str("windows") },
            PlatformOs::Pyodide => Os {
                kind: OsKind::Other,
                name: String::from_str("emscripten"),
            },
        }
    }
}

impl Libc {
    /// The libc a tag operating system implies.
    pub fn from_platform(value: &PlatformOs) -> (r: Libc)
        ensures
            r == libc_of_tag(*value),
    {
        match value {
            PlatformOs::Manylinux => Libc::Specific(LibcEnvironment::Gnu),
            PlatformOs::Musllinux => Libc::Specific(LibcEnvironment::Musl),
            _ => Libc::NoLibc,
        }
    }
}

} // verus!
