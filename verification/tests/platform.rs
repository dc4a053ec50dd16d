use host_platform::arch::{Arch, FamilyKind};
use host_platform::error::Error;
use host_platform::libc::{Libc, LibcEnvironment, LibcVersion};
use host_platform::os::{Os, OsKind};
use host_platform::tags::{PlatformArch, PlatformOs};
use host_platform::variant::ArchVariant;

#[test]
fn arch_x86_alias() {
    let a = Arch::from_str("x86").unwrap();
    let b = Arch::from_str("i686").unwrap();
    assert_eq!(a, b);
    assert_eq!(a.family().kind(), FamilyKind::I686);
    assert_eq!(a.family().name(), "i686");
    assert_eq!(a.format(), "x86");
    assert_eq!(b.format(), "x86");
}

#[test]
fn arch_variant_token() {
    let a = Arch::from_str("x86_64_v3").unwrap();
    assert_eq!(a.family().kind(), FamilyKind::X86_64);
    assert_eq!(a.family().name(), "x86_64");
    assert_eq!(a.variant(), Some(ArchVariant::V3));
    assert_eq!(a.format(), "x86_64_v3");
}

#[test]
fn arch_variant_rejected_on_other_family() {
    match Arch::from_str("aarch64_v3") {
        Err(Error::UnsupportedVariant(v, f)) => {
            assert_eq!(v, "v3");
            assert_eq!(f, "aarch64");
        }
        other => panic!("expected an unsupported-variant error, got {other:?}"),
    }
    match Arch::from_str("x86_v2") {
        Err(Error::UnsupportedVariant(v, f)) => {
            assert_eq!(v, "v2");
            assert_eq!(f, "i686");
        }
        other => panic!("expected an unsupported-variant error, got {other:?}"),
    }
}

#[test]
fn arch_bad_variant_falls_back_to_whole_token() {
    match Arch::from_str("x86_64_v9") {
        Err(Error::UnknownArch(s)) => assert_eq!(s, "x86_64_v9"),
        other => panic!("expected an unknown-architecture error, got {other:?}"),
    }
}

#[test]
fn arch_unknown_rejected() {
    assert!(matches!(Arch::from_str("bogus123"), Err(Error::UnknownArch(_))));
    assert!(matches!(Arch::from_str("unknown"), Err(Error::UnknownArch(_))));
    assert!(matches!(Arch::from_str("X86"), Err(Error::UnknownArch(_))));
    assert!(matches!(Arch::from_str(" x86"), Err(Error::UnknownArch(_))));
    assert!(matches!(Arch::from_str(""), Err(Error::UnknownArch(_))));
}

#[test]
fn arch_round_trip() {
    for token in [
        "x86", "i686", "x86_64", "x86_64_v2", "x86_64_v3", "x86_64_v4", "aarch64", "arm64",
        "armv7", "aarch64_be", "riscv64", "powerpc64le", "s390x", "wasm32",
    ] {
        let a = Arch::from_str(token).unwrap();
        let again = Arch::from_str(&a.format()).unwrap();
        assert_eq!(a, again, "token {token} did not round-trip");
    }
}

#[test]
fn arch_alias_canonicalizes() {
    let a = Arch::from_str("arm64").unwrap();
    assert_eq!(a.family().name(), "aarch64");
    assert_eq!(a.family().kind(), FamilyKind::Aarch64);
    assert_eq!(a, Arch::from_str("aarch64").unwrap());
}

#[test]
fn arch_is_arm() {
    assert!(Arch::from_str("armv7").unwrap().is_arm());
    assert!(Arch::from_str("armv5te").unwrap().is_arm());
    assert!(!Arch::from_str("aarch64").unwrap().is_arm());
    assert!(!Arch::from_str("x86_64").unwrap().is_arm());
}

#[test]
fn ordering_preferred_family_first() {
    let x86_64 = Arch::from_str("x86_64").unwrap();
    let aarch64 = Arch::from_str("aarch64").unwrap();
    let preferred = Arch::from_str("x86_64").unwrap();
    assert_eq!(x86_64.cmp(&aarch64, &preferred), std::cmp::Ordering::Less);
    assert_eq!(aarch64.cmp(&x86_64, &preferred), std::cmp::Ordering::Greater);
    assert_eq!(
        x86_64.partial_cmp(&aarch64, &preferred),
        Some(std::cmp::Ordering::Less)
    );
}

#[test]
fn ordering_same_family_by_variant_tier() {
    let preferred = Arch::from_str("aarch64").unwrap();
    let plain = Arch::from_str("x86_64").unwrap();
    let v2 = Arch::from_str("x86_64_v2").unwrap();
    let v3 = Arch::from_str("x86_64_v3").unwrap();
    let v4 = Arch::from_str("x86_64_v4").unwrap();
    assert_eq!(plain.cmp(&v2, &preferred), std::cmp::Ordering::Less);
    assert_eq!(v2.cmp(&v3, &preferred), std::cmp::Ordering::Less);
    assert_eq!(v3.cmp(&v4, &preferred), std::cmp::Ordering::Less);
    assert_eq!(v4.cmp(&v2, &preferred), std::cmp::Ordering::Greater);
    assert_eq!(v3.cmp(&v3, &preferred), std::cmp::Ordering::Equal);
}

#[test]
fn ordering_lexicographic_when_neither_preferred() {
    let preferred = Arch::from_str("x86_64").unwrap();
    let aarch64 = Arch::from_str("aarch64").unwrap();
    let powerpc64 = Arch::from_str("powerpc64").unwrap();
    assert_eq!(aarch64.cmp(&powerpc64, &preferred), std::cmp::Ordering::Less);
    assert_eq!(powerpc64.cmp(&aarch64, &preferred), std::cmp::Ordering::Greater);
}

#[test]
fn preferred_overridden_on_windows_aarch64() {
    let windows = Os::from_str("windows").unwrap();
    let linux = Os::from_str("linux").unwrap();
    let aarch64 = Arch::from_str("aarch64").unwrap();
    let x86_64 = Arch::from_str("x86_64").unwrap();
    let p = Arch::preferred(&windows, Arch::from_str("aarch64").unwrap());
    assert_eq!(p, x86_64);
    assert_eq!(Arch::preferred(&linux, Arch::from_str("aarch64").unwrap()), aarch64);
    assert_eq!(Arch::preferred(&windows, Arch::from_str("x86_64").unwrap()), x86_64);
}

#[test]
fn supports_identity_and_emulation() {
    let windows = Os::from_str("windows").unwrap();
    let macos = Os::from_str("macos").unwrap();
    let linux = Os::from_str("linux").unwrap();
    let aarch64 = Arch::from_str("aarch64").unwrap();
    let x86_64 = Arch::from_str("x86_64").unwrap();
    let v3 = Arch::from_str("x86_64_v3").unwrap();
    assert!(aarch64.supports(&aarch64, &linux));
    assert!(v3.supports(&v3, &linux));
    assert!(aarch64.supports(&x86_64, &windows));
    assert!(aarch64.supports(&x86_64, &macos));
    assert!(aarch64.supports(&v3, &windows));
    assert!(!aarch64.supports(&x86_64, &linux));
    assert!(!x86_64.supports(&aarch64, &windows));
    assert!(!x86_64.supports(&v3, &linux));
}

#[test]
fn os_macos_alias() {
    let a = Os::from_str("macos").unwrap();
    let b = Os::from_str("darwin").unwrap();
    assert_eq!(a, b);
    assert_eq!(a.kind(), OsKind::Darwin);
    assert_eq!(a.name(), "darwin");
    assert_eq!(a.format(), "macos");
    assert_eq!(b.format(), "macos");
}

#[test]
fn os_round_trip() {
    for token in ["macos", "darwin", "linux", "windows", "freebsd", "emscripten", "haiku"] {
        let o = Os::from_str(token).unwrap();
        let again = Os::from_str(&o.format()).unwrap();
        assert_eq!(o, again, "token {token} did not round-trip");
    }
}

#[test]
fn os_versioned_darwin_canonicalizes() {
    let o = Os::from_str("darwin23").unwrap();
    assert_eq!(o.kind(), OsKind::Darwin);
    assert_eq!(o.name(), "darwin23.0.0");
    assert_eq!(o.format(), "macos");
}

#[test]
fn os_unknown_rejected() {
    match Os::from_str("unknown") {
        Err(Error::UnknownOs(s)) => assert_eq!(s, "unknown"),
        other => panic!("expected an unknown-os error, got {other:?}"),
    }
    assert!(matches!(Os::from_str("beos"), Err(Error::UnknownOs(_))));
    assert!(matches!(Os::from_str("Linux"), Err(Error::UnknownOs(_))));
}

#[test]
fn libc_tokens() {
    assert_eq!(Libc::from_str("gnu").unwrap(), Libc::Specific(LibcEnvironment::Gnu));
    assert_eq!(Libc::from_str("gnueabi").unwrap(), Libc::Specific(LibcEnvironment::Gnueabi));
    assert_eq!(
        Libc::from_str("gnueabihf").unwrap(),
        Libc::Specific(LibcEnvironment::Gnueabihf)
    );
    assert_eq!(Libc::from_str("musl").unwrap(), Libc::Specific(LibcEnvironment::Musl));
    assert_eq!(Libc::from_str("none").unwrap(), Libc::NoLibc);
    assert_eq!(Libc::NoLibc.format(), "none");
    assert_eq!(Libc::Specific(LibcEnvironment::Gnueabihf).format(), "gnueabihf");
    match Libc::from_str("glibc") {
        Err(Error::UnknownLibc(s)) => assert_eq!(s, "glibc"),
        other => panic!("expected an unknown-libc error, got {other:?}"),
    }
    assert!(matches!(Libc::from_str("GNU"), Err(Error::UnknownLibc(_))));
}

#[test]
fn libc_round_trip() {
    for token in ["gnu", "gnueabi", "gnueabihf", "musl", "none"] {
        let l = Libc::from_str(token).unwrap();
        assert_eq!(Libc::from_str(&l.format()).unwrap(), l);
        assert_eq!(l.format(), token);
    }
}

#[test]
fn libc_is_musl() {
    assert!(Libc::Specific(LibcEnvironment::Musl).is_musl());
    assert!(!Libc::Specific(LibcEnvironment::Gnu).is_musl());
    assert!(!Libc::NoLibc.is_musl());
}

#[test]
fn libc_from_env_non_linux_is_none() {
    for os in ["macos", "windows", "freebsd", "haiku"] {
        let r = Libc::from_env(
            os,
            "aarch64",
            Some("musl"),
            Err(String::from("probe broke")),
            None,
        );
        assert_eq!(r.unwrap(), Libc::NoLibc);
    }
}

#[test]
fn libc_from_env_override_wins() {
    let r = Libc::from_env(
        "linux",
        "x86_64",
        Some("musl"),
        Ok(LibcVersion::Manylinux),
        None,
    );
    assert_eq!(r.unwrap(), Libc::Specific(LibcEnvironment::Musl));
    let bad = Libc::from_env(
        "linux",
        "x86_64",
        Some("glibc"),
        Ok(LibcVersion::Manylinux),
        None,
    );
    match bad {
        Err(Error::UnknownLibc(s)) => assert_eq!(s, "glibc"),
        other => panic!("expected an unknown-libc error, got {other:?}"),
    }
    let empty = Libc::from_env("linux", "x86_64", Some(""), Ok(LibcVersion::Manylinux), None);
    assert_eq!(empty.unwrap(), Libc::Specific(LibcEnvironment::Gnu));
}

#[test]
fn libc_from_env_probe_decides() {
    let gnu = Libc::from_env("linux", "x86_64", None, Ok(LibcVersion::Manylinux), None);
    assert_eq!(gnu.unwrap(), Libc::Specific(LibcEnvironment::Gnu));
    let musl = Libc::from_env("linux", "armv7", None, Ok(LibcVersion::Musllinux), Some(true));
    assert_eq!(musl.unwrap(), Libc::Specific(LibcEnvironment::Musl));
    let failed = Libc::from_env("linux", "x86_64", None, Err(String::from("boom")), None);
    match failed {
        Err(Error::LibcDetectionError(m)) => assert_eq!(m, "boom"),
        other => panic!("expected a libc-detection error, got {other:?}"),
    }
}

#[test]
fn libc_from_env_arm_float_probe() {
    let hard = Libc::from_env("linux", "armv7", None, Ok(LibcVersion::Manylinux), Some(true));
    assert_eq!(hard.unwrap(), Libc::Specific(LibcEnvironment::Gnueabihf));
    let soft = Libc::from_env("linux", "arm", None, Ok(LibcVersion::Manylinux), Some(false));
    assert_eq!(soft.unwrap(), Libc::Specific(LibcEnvironment::Gnueabi));
    let fell_back = Libc::from_env("linux", "armv5te", None, Ok(LibcVersion::Manylinux), None);
    assert_eq!(fell_back.unwrap(), Libc::Specific(LibcEnvironment::Gnu));
    let armv6 = Libc::from_env("linux", "armv6", None, Ok(LibcVersion::Manylinux), Some(true));
    assert_eq!(armv6.unwrap(), Libc::Specific(LibcEnvironment::Gnu));
}

#[test]
fn error_messages() {
    let e = Arch::from_str("x86_64_v9").unwrap_err();
    assert_eq!(e.message(), "Unknown architecture: x86_64_v9");
    let e = Arch::from_str("aarch64_v3").unwrap_err();
    assert_eq!(e.message(), "Unsupported variant `v3` for architecture `aarch64`");
    let e = Os::from_str("beos").unwrap_err();
    assert_eq!(e.message(), "Unknown operating system: beos");
    let e = Libc::from_str("glibc").unwrap_err();
    assert_eq!(e.message(), "Unknown libc environment: glibc");
    let e = Libc::from_env("linux", "x86_64", None, Err(String::from("boom")), None)
        .unwrap_err();
    assert_eq!(e.message(), "boom");
}

#[test]
fn variant_tokens() {
    assert_eq!(ArchVariant::from_str("v2"), Ok(ArchVariant::V2));
    assert_eq!(ArchVariant::from_str("v3"), Ok(ArchVariant::V3));
    assert_eq!(ArchVariant::from_str("v4"), Ok(ArchVariant::V4));
    assert_eq!(ArchVariant::from_str("v9"), Err(()));
    assert_eq!(ArchVariant::from_str("V2"), Err(()));
    assert_eq!(ArchVariant::from_str(""), Err(()));
    assert_eq!(ArchVariant::V2.as_str(), "v2");
    assert_eq!(ArchVariant::V4.as_str(), "v4");
    assert!(ArchVariant::V2 < ArchVariant::V3 && ArchVariant::V3 < ArchVariant::V4);
}

#[test]
fn tag_conversions() {
    let x86 = Arch::from_platform(&PlatformArch::X86);
    assert_eq!(x86.family().name(), "i686");
    assert_eq!(x86.format(), "x86");
    assert_eq!(x86, Arch::from_str("x86").unwrap());
    let aarch64 = Arch::from_platform(&PlatformArch::Aarch64);
    assert_eq!(aarch64, Arch::from_str("aarch64").unwrap());
    assert_eq!(Arch::from_platform(&PlatformArch::Armv5TEL).family().name(), "armv5te");
    assert_eq!(Arch::from_platform(&PlatformArch::X86_64).family().kind(), FamilyKind::X86_64);
    assert_eq!(Arch::from_platform(&PlatformArch::Riscv64), Arch::from_str("riscv64").unwrap());

    assert_eq!(Os::from_platform(&PlatformOs::Macos), Os::from_str("macos").unwrap());
    assert_eq!(Os::from_platform(&PlatformOs::Manylinux).format(), "linux");
    assert_eq!(Os::from_platform(&PlatformOs::Android).format(), "linux");
    assert_eq!(Os::from_platform(&PlatformOs::Pyodide).name(), "emscripten");
    assert_eq!(Os::from_platform(&PlatformOs::Windows).kind(), OsKind::Windows);

    assert_eq!(Libc::from_platform(&PlatformOs::Manylinux).format(), "gnu");
    assert_eq!(Libc::from_platform(&PlatformOs::Musllinux).format(), "musl");
    assert_eq!(Libc::from_platform(&PlatformOs::Windows), Libc::NoLibc);
    assert_eq!(Libc::from_platform(&PlatformOs::FreeBsd), Libc::NoLibc);
}

#[test]
fn from_env_smoke() {
    let os = Os::from_env();
    assert!(!os.format().is_empty());
    let arch = Arch::from_env();
    assert_eq!(arch.variant(), None);
    assert!(!arch.format().is_empty());
    assert_eq!(arch, Arch::from_env());
}

#[test]
fn from_env_coherent() {
    let os = Os::from_env();
    if os.kind() != OsKind::Unknown {
        assert_eq!(Os::from_str(os.name()).unwrap(), os);
    }
    let arch = Arch::from_env();
    if arch.family().kind() != FamilyKind::Unknown {
        assert_eq!(Arch::from_str(arch.family().name()).unwrap(), arch);
        assert_eq!(Arch::from_str(&arch.format()).unwrap(), arch);
    }
}
