//! CPU architecture families, their optional instruction-set variant, the
//! preference ordering and the execution compatibility predicate.

use vstd::prelude::*;
use vstd::string::StrSliceExecFns;
use vstd::string::StringExecFns;
use crate::error::{Error, ErrorKind};
use crate::os::{Os, OsKind, OsV};
use crate::strutil::{last_underscore, lex_cmp, str_eq};
use crate::variant::{ArchVariant, opt_variant_rank, variant_name, variant_token};

verus! {

/// What the rest of the crate reads of an architecture family, beyond its
/// canonical name.
#[derive(Debug, Eq, PartialEq, Structural, Clone, Copy, Hash)]
pub enum FamilyKind {
    /// The 64-bit x86 family, the only one that takes a variant.
    X86_64,
    /// Any 64-bit ARM family.
    Aarch64,
    /// Any 32-bit ARM family.
    Arm,
    /// The 32-bit x86 family this crate supports, written `x86` on display.
    I686,
    /// The unknown sentinel of the vocabulary; never a valid parse result.
    Unknown,
    /// Any other recognized family.
    Other,
}

/// Abstract value of an [`ArchFamily`]: its kind and its canonical name.
pub struct ArchFamilyV {
    pub kind: FamilyKind,
    pub name: Seq<char>,
}

/// A CPU architecture family drawn from the architecture-triple vocabulary.
#[derive(Debug, Hash)]
pub struct ArchFamily {
    pub kind: FamilyKind,
    pub name: String,
}

impl View for ArchFamily {
    type V = ArchFamilyV;

    open spec fn view(&self) -> ArchFamilyV {
        ArchFamilyV { kind: self.kind, name: self.name@ }
    }
}

/// Abstract value of an [`Arch`].
pub struct ArchV {
    pub family: ArchFamilyV,
    pub variant: Option<ArchVariant>,
}

/// A CPU architecture: a family plus an optional instruction-set variant.
///
/// A variant is only ever paired with the 64-bit x86 family; the parser
/// enforces this, it is not encoded in the type.
#[derive(Debug, Hash)]
pub struct Arch {
    pub family: ArchFamily,
    pub variant: Option<ArchVariant>,
}

impl View for Arch {
    type V = ArchV;

    open spec fn view(&self) -> ArchV {
        ArchV { family: self.family@, variant: self.variant }
    }
}

/// The family the vocabulary assigns to a token, as its kind and canonical
/// name, or `None` when the token is not recognized.
pub uninterp spec fn lexicon_arch(s: Seq<char>) -> Option<ArchFamilyV>;

/// True when `s`, split at its last underscore, does not end in a variant
/// token; parsing such a string never commits to a variant suffix.
pub open spec fn no_variant_suffix(s: Seq<char>) -> bool {
    last_underscore(s) < 0 || variant_token(s.skip(last_underscore(s) + 1)) is None
}

/// Relies on `target_lexicon::Architecture`: `from_str` for the token
/// vocabulary and `into_str` (through `to_string`) for the canonical name.
/// Its source shows that the canonical name of every recognized value parses
/// back to that same value, that the names `x86_64`, `i686` and `unknown`
/// belong exactly to the 64-bit x86 family, the 32-bit x86 family this crate
/// supports, and the unknown sentinel, that no canonical name is `x86`, and
/// that no canonical name ends in an underscore followed by a variant token.
#[verifier::external_body]
fn lexicon_parse_arch(s: &str) -> (r: Option<ArchFamily>)
    ensures
        r matches Some(f) ==> lexicon_arch(s@) == Some(f@),
        r is None ==> lexicon_arch(s@) is None,
        r matches Some(f) ==> lexicon_arch(f@.name) == Some(f@),
        r matches Some(f) ==> (f@.kind == FamilyKind::X86_64 <==> f@.name == "x86_64"@),
        r matches Some(f) ==> (f@.kind == FamilyKind::I686 <==> f@.name == "i686"@),
        r matches Some(f) ==> (f@.kind == FamilyKind::Unknown <==> f@.name == "unknown"@),
        r matches Some(f) ==> f@.name != "x86"@,
        r matches Some(f) ==> no_variant_suffix(f@.name),
{
    let a = match <target_lexicon::Architecture as core::str::FromStr>::from_str(s) {
        Ok(a) => a,
        Err(()) => return None,
    };
    let kind = match a {
        target_lexicon::Architecture::X86_64 => FamilyKind::X86_64,
        target_lexicon::Architecture::Aarch64(_) => FamilyKind::Aarch64,
        target_lexicon::Architecture::Arm(_) => FamilyKind::Arm,
        target_lexicon::Architecture::X86_32(target_lexicon::X86_32Architecture::I686) => FamilyKind::I686,
        target_lexicon::Architecture::Unknown => FamilyKind::Unknown,
        _ => FamilyKind::Other,
    };
    Some(ArchFamily { kind, name: a.to_string() })
}

/// Relies on `target_lexicon::HOST.architecture`, the architecture this
/// library was built for, and on `into_str` (through `to_string`) for its
/// canonical name. Which value comes back depends on the build target and
/// may not be pinned down, so the clauses state only what the source shows
/// of every value in the vocabulary: its canonical name re-parses to that
/// same value, the names `x86_64`, `i686` and `unknown` belong exactly to
/// the claimed kinds, no canonical name is `x86`, and no canonical name
/// ends in an underscore followed by a variant token.
#[verifier::external_body]
fn lexicon_host_arch() -> (r: ArchFamily)
    ensures
        lexicon_arch(r@.name) == Some(r@),
        (r@.kind == FamilyKind::X86_64 <==> r@.name == "x86_64"@),
        (r@.kind == FamilyKind::I686 <==> r@.name == "i686"@),
        (r@.kind == FamilyKind::Unknown <==> r@.name == "unknown"@),
        r@.name != "x86"@,
        no_variant_suffix(r@.name),
{
    let a = target_lexicon::HOST.architecture;
    let kind = match a {
        target_lexicon::Architecture::X86_64 => FamilyKind::X86_64,
        target_lexicon::Architecture::Aarch64(_) => FamilyKind::Aarch64,
        target_lexicon::Architecture::Arm(_) => FamilyKind::Arm,
        target_lexicon::Architecture::X86_32(target_lexicon::X86_32Architecture::I686) => FamilyKind::I686,
        target_lexicon::Architecture::Unknown => FamilyKind::Unknown,
        _ => FamilyKind::Other,
    };
    ArchFamily { kind, name: a.to_string() }
}

/// The family a token denotes: the literal `x86` is an alias of the `i686`
/// family, every other token is resolved through the vocabulary, and the
/// unknown sentinel is rejected.
pub open spec fn family_token(s: Seq<char>) -> Option<ArchFamilyV> {
    if s == "x86"@ {
        Some(ArchFamilyV { kind: FamilyKind::I686, name: "i686"@ })
    } else {
        match lexicon_arch(s) {
            Some(f) => if f.kind == FamilyKind::Unknown {
                None
            } else {
                Some(f)
            },
            None => None,
        }
    }
}

/// The canonical display form of a family: the `i686` family formats as
/// `x86`, all others format as their canonical name.
pub open spec fn family_format(f: ArchFamilyV) -> Seq<char> {
    if f.kind == FamilyKind::I686 {
        "x86"@
    } else {
        f.name
    }
}

/// The architecture a bare token (one without a variant suffix) denotes.
pub open spec fn bare_arch_token(s: Seq<char>) -> Result<ArchV, ErrorKind> {
    match family_token(s) {
        Some(f) => Ok(ArchV { family: f, variant: None }),
        None => Err(ErrorKind::UnknownArch(s)),
    }
}

/// The architecture a token denotes. A split at the last underscore is
/// committed only when the prefix is a family and the suffix is a variant
/// token, and then only the 64-bit x86 family may carry the variant;
/// otherwise the whole token is parsed as a bare family.
pub open spec fn arch_token(s: Seq<char>) -> Result<ArchV, ErrorKind> {
    let p = last_underscore(s);
    if p >= 0 {
        match (family_token(s.take(p)), variant_token(s.skip(p + 1))) {
            (Some(f), Some(v)) => if f.kind == FamilyKind::X86_64 {
                Ok(ArchV { family: f, variant: Some(v) })
            } else {
                Err(ErrorKind::UnsupportedVariant(variant_name(v), f.name))
            },
            _ => bare_arch_token(s),
        }
    } else {
        bare_arch_token(s)
    }
}

/// The canonical display form of an architecture: the family's display form,
/// then `_` and the variant token when a variant is present.
pub open spec fn arch_format(a: ArchV) -> Seq<char> {
    match a.variant {
        None => family_format(a.family),
        Some(v) => family_format(a.family) + seq!['_'] + variant_name(v),
    }
}

/// What holds of every architecture value this crate hands out: its family's
/// display form parses back to the same family without committing to a
/// variant suffix, and a variant is only carried by the 64-bit x86 family.
pub open spec fn arch_wf(a: ArchV) -> bool {
    &&& family_token(family_format(a.family)) == Some(a.family)
    &&& no_variant_suffix(family_format(a.family))
    &&& (a.variant is Some ==> a.family.kind == FamilyKind::X86_64
        && a.family.name == "x86_64"@)
}

/// Round trip: formatting a well-formed architecture value reproduces
/// exactly that value under re-parsing, so `format` after `parse` is
/// idempotent under further `parse`/`format` cycles.
pub proof fn lemma_arch_round_trip(a: ArchV)
    requires
        arch_wf(a),
    ensures
        arch_token(arch_format(a)) == Ok::<ArchV, ErrorKind>(a),
{
    match a.variant {
        Option::None => {
            let t = family_format(a.family);
            if last_underscore(t) >= 0 {
                assert(variant_token(t.skip(last_underscore(t) + 1)) is None);
            }
        },
        Option::Some(v) => {
            let base = family_format(a.family);
            let t = base + seq!['_'] + variant_name(v);
            crate::variant::lemma_variant_round_trip(v);
            reveal_strlit("v2");
            reveal_strlit("v3");
            reveal_strlit("v4");
            crate::strutil::lemma_last_underscore_append(base, variant_name(v));
            assert(t.take(base.len() as int) =~= base);
            assert(t.skip(base.len() as int + 1) =~= variant_name(v));
        },
    }
}

/// Parses a family token, with the facts needed for the round trip.
fn parse_family(s: &str) -> (r: Option<ArchFamily>)
    ensures
        r matches Some(f) ==> family_token(s@) == Some(f@),
        r is None ==> family_token(s@) is None,
        r matches Some(f) ==> family_token(family_format(f@)) == Some(f@),
        r matches Some(f) ==> no_variant_suffix(family_format(f@)),
        r matches Some(f) ==> (f@.kind == FamilyKind::X86_64 <==> f@.name == "x86_64"@),
        r matches Some(f) ==> f@.kind != FamilyKind::Unknown,
{
    if str_eq(s, "x86") {
        proof {
            reveal_strlit("x86");
            reveal_strlit("i686");
            reveal_strlit("x86_64");
            assert("i686"@.len() == 4 && "x86_64"@.len() == 6);
            assert("i686"@ != "x86_64"@);
            crate::strutil::lemma_no_underscore("x86"@);
        }
        Some(ArchFamily { kind: FamilyKind::I686, name: String::from_str("i686") })
    } else {
        match lexicon_parse_arch(s) {
            Some(f) => {
                if f.kind == FamilyKind::Unknown {
                    None
                } else {
                    proof {
                        if f@.kind == FamilyKind::I686 {
                            reveal_strlit("x86");
                            crate::strutil::lemma_no_underscore("x86"@);
                        }
                    }
                    Some(f)
                }
            },
            None => None,
        }
    }
}

/// Compares optional variants: no variant ranks below every concrete tier,
/// and concrete tiers compare by rank.
pub open spec fn variant_cmp(a: Option<ArchVariant>, b: Option<ArchVariant>)
    -> core::cmp::Ordering {
    if opt_variant_rank(a) < opt_variant_rank(b) {
        core::cmp::Ordering::Less
    } else if opt_variant_rank(a) == opt_variant_rank(b) {
        core::cmp::Ordering::Equal
    } else {
        core::cmp::Ordering::Greater
    }
}

/// The preference order between two architectures, given the single
/// preferred family of the comparison. Architectures of one family compare
/// by variant alone; otherwise the side whose family is the preferred one
/// sorts first, and when neither matches, the canonical family names compare
/// lexicographically. Both sides matching the preferred family while the
/// families differ cannot occur: matching the one preferred name makes the
/// family names equal, which is the first branch.
pub open spec fn arch_cmp(a: ArchV, b: ArchV, preferred: ArchV) -> core::cmp::Ordering {
    if a.family.name == b.family.name {
        variant_cmp(a.variant, b.variant)
    } else if a.family.name == preferred.family.name {
        core::cmp::Ordering::Less
    } else if b.family.name == preferred.family.name {
        core::cmp::Ordering::Greater
    } else {
        lex_cmp(a.family.name, b.family.name)
    }
}

/// The preferred architecture value of this comparison policy: the native
/// one, except that a Windows host on a 64-bit ARM machine prefers 64-bit
/// x86, whose emulated builds are more widely usable there. The override
/// affects ranking only; it never rejects an explicitly requested value.
pub open spec fn preferred_of(host_os: OsV, native: ArchV) -> ArchV {
    if host_os.kind == OsKind::Windows && native.family.kind == FamilyKind::Aarch64 {
        ArchV {
            family: ArchFamilyV { kind: FamilyKind::X86_64, name: "x86_64"@ },
            variant: None,
        }
    } else {
        native
    }
}

/// Whether a host of architecture `a` under operating system `host_os` can
/// run binaries built for `b`: always when the two are equal, and otherwise
/// only through the transparent 64-bit x86 emulation that Windows and macOS
/// offer on 64-bit ARM hosts (assumed available, not verified).
pub open spec fn supports_of(a: ArchV, b: ArchV, host_os: OsV) -> bool {
    a == b || ((host_os.kind == OsKind::Windows || host_os.kind == OsKind::Darwin)
        && a.family.kind == FamilyKind::Aarch64 && b.family.kind == FamilyKind::X86_64)
}

impl ArchFamily {
    /// The kind of this family.
    pub fn kind(&self) -> (r: FamilyKind)
        ensures
            r == self@.kind,
    {
        self.kind
    }

    /// The canonical name of this family in the vocabulary.
    pub fn name(&self) -> (r: &str)
        ensures
            r@ == self@.name,
    {
        self.name.as_str()
    }
}

impl Arch {
    /// Strict parse of an architecture token.
    pub fn from_str(s: &str) -> (r: Result<Arch, Error>)
        ensures
            r matches Ok(a) ==> arch_token(s@) == Ok::<ArchV, ErrorKind>(a@) && arch_wf(a@),
            r matches Err(e) ==> arch_token(s@) == Err::<ArchV, ErrorKind>(e@),
    {
        let n = s.unicode_len();
        match crate::strutil::find_last_underscore(s) {
            Some(p) => {
                let fam_str = s.substring_char(0, p);
                let var_str = s.substring_char(p + 1, n);
                let fam = parse_family(fam_str);
                let var = ArchVariant::from_str(var_str);
                match (fam, var) {
                    (Some(f), Ok(v)) => {
                        if f.kind == FamilyKind::X86_64 {
                            Ok(Arch { family: f, variant: Some(v) })
                        } else {
                            Err(
                                Error::UnsupportedVariant(
                                    String::from_str(v.as_str()),
                                    f.name,
                                ),
                            )
                        }
                    },
                    _ => Self::parse_bare(s),
                }
            },
            None => Self::parse_bare(s),
        }
    }

    /// Parses a token as a bare family, with no variant.
    fn parse_bare(s: &str) -> (r: Result<Arch, Error>)
        ensures
            r matches Ok(a) ==> bare_arch_token(s@) == Ok::<ArchV, ErrorKind>(a@) && arch_wf(
                a@,
            ),
            r matches Err(e) ==> bare_arch_token(s@) == Err::<ArchV, ErrorKind>(e@),
    {
        match parse_family(s) {
            Some(f) => Ok(Arch { family: f, variant: None }),
            None => Err(Error::UnknownArch(String::from_str(s))),
        }
    }

    /// The canonical display form of this architecture.
    pub fn format(&self) -> (r: String)
        ensures
            r@ == arch_format(self@),
    {
        let mut out: String = if self.family.kind == FamilyKind::I686 {
            String::from_str("x86")
        } else {
            self.family.name.clone()
        };
        if let Some(v) = self.variant {
            out.append("_");
            out.append(v.as_str());
            proof {
                reveal_strlit("_");
                assert("_"@ =~= seq!['_']);
            }
        }
        out
    }

    /// The architecture this library was built for, with no variant. Which
    /// family that is depends on the build target; what is promised is that
    /// the result is coherent: its name is the canonical name of the family
    /// it denotes in the vocabulary, with the kinds the names imply, so,
    /// short of the unknown sentinel, the result is well formed and
    /// re-parsing its display form reproduces it.
    pub fn from_env() -> (r: Arch)
        ensures
            r@.variant is None,
            lexicon_arch(r@.family.name) == Some(r@.family),
            (r@.family.kind == FamilyKind::X86_64 <==> r@.family.name == "x86_64"@),
            (r@.family.kind == FamilyKind::I686 <==> r@.family.name == "i686"@),
            (r@.family.kind == FamilyKind::Unknown <==> r@.family.name == "unknown"@),
            r@.family.name != "x86"@,
            r@.family.kind != FamilyKind::Unknown ==> arch_wf(r@),
    {
        let family = lexicon_host_arch();
        proof {
            if family@.kind == FamilyKind::I686 {
                reveal_strlit("x86");
                reveal_strlit("i686");
                crate::strutil::lemma_no_underscore("x86"@);
            }
        }
        Arch { family, variant: None }
    }

    /// The preference order between `self` and `other` under the given
    /// preferred architecture; see [`arch_cmp`]. The preferred value is
    /// normally [`preferred`](Self::preferred) of the live host.
    pub fn cmp(&self, other: &Arch, preferred: &Arch) -> (r: core::cmp::Ordering)
        ensures
            r == arch_cmp(self@, other@, preferred@),
    {
        if str_eq(self.family.name.as_str(), other.family.name.as_str()) {
            let ra = opt_rank(self.variant);
            let rb = opt_rank(other.variant);
            if ra < rb {
                core::cmp::Ordering::Less
            } else if ra == rb {
                core::cmp::Ordering::Equal
            } else {
                core::cmp::Ordering::Greater
            }
        } else if str_eq(self.family.name.as_str(), preferred.family.name.as_str()) {
            core::cmp::Ordering::Less
        } else if str_eq(other.family.name.as_str(), preferred.family.name.as_str()) {
            core::cmp::Ordering::Greater
        } else {
            crate::strutil::lex_cmp_str(self.family.name.as_str(), other.family.name.as_str())
        }
    }

    /// As [`cmp`](Self::cmp), wrapped in `Some`.
    pub fn partial_cmp(&self, other: &Arch, preferred: &Arch) -> (r: Option<
        core::cmp::Ordering,
    >)
        ensures
            r == Some(arch_cmp(self@, other@, preferred@)),
    {
        Some(self.cmp(other, preferred))
    }

    /// The preferred architecture of a comparison on the given host; see
    /// [`preferred_of`].
    pub fn preferred(host_os: &Os, native: Arch) -> (r: Arch)
        ensures
            r@ == preferred_of(host_os@, native@),
    {
        if host_os.kind() == OsKind::Windows && native.family.kind == FamilyKind::Aarch64 {
            Arch {
                family: ArchFamily { kind: FamilyKind::X86_64, name: String::from_str("x86_64") },
                variant: None,
            }
        } else {
            native
        }
    }

    /// Whether this architecture can run binaries built for `other` on a host
    /// whose operating system is `host_os`; see [`supports_of`].
    pub fn supports(&self, other: &Arch, host_os: &Os) -> (r: bool)
        ensures
            r == supports_of(self@, other@, host_os@),
    {
        if self == other {
            return true;
        }
        (host_os.kind() == OsKind::Windows || host_os.kind() == OsKind::Darwin)
            && self.family.kind == FamilyKind::Aarch64
            && other.family.kind == FamilyKind::X86_64
    }

    /// The family of this architecture.
    pub fn family(&self) -> (r: &ArchFamily)
        ensures
            r@ == self@.family,
    {
        &self.family
    }

    /// The variant of this architecture, if any.
    pub fn variant(&self) -> (r: Option<ArchVariant>)
        ensures
            r == self@.variant,
    {
        self.variant
    }

    /// Whether the family is a 32-bit ARM family.
    pub fn is_arm(&self) -> (r: bool)
        ensures
            r == (self@.family.kind == FamilyKind::Arm),
    {
        self.family.kind == FamilyKind::Arm
    }
}

/// Architectures of one family compare by variant tier alone, whatever the
/// preferred architecture.
pub proof fn lemma_same_family_orders_by_variant(a: ArchV, b: ArchV, preferred: ArchV)
    requires
        a.family.name == b.family.name,
    ensures
        arch_cmp(a, b, preferred) == variant_cmp(a.variant, b.variant),
{
}

/// When exactly one side's family is the preferred one, that side sorts
/// first.
pub proof fn lemma_preferred_sorts_first(a: ArchV, b: ArchV, preferred: ArchV)
    requires
        a.family.name != b.family.name,
        a.family.name == preferred.family.name,
    ensures
        arch_cmp(a, b, preferred) == core::cmp::Ordering::Less,
        arch_cmp(b, a, preferred) == core::cmp::Ordering::Greater,
{
}

/// The rank of an optional variant, as executable code.
fn opt_rank(v: Option<ArchVariant>) -> (r: u8)
    ensures
        r as int == opt_variant_rank(v),
{
    match v {
        None => 0,
        Some(ArchVariant::V2) => 2,
        Some(ArchVariant::V3) => 3,
        Some(ArchVariant::V4) => 4,
    }
}

impl PartialEq for ArchFamily {
    fn eq(&self, other: &ArchFamily) -> (r: bool) {
        self.kind == other.kind && str_eq(self.name.as_str(), other.name.as_str())
    }
}

impl vstd::std_specs::cmp::PartialEqSpecImpl for ArchFamily {
    open spec fn obeys_eq_spec() -> bool {
        true
    }

    open spec fn eq_spec(&self, other: &ArchFamily) -> bool {
        self@ == other@
    }
}

impl PartialEq for Arch {
    fn eq(&self, other: &Arch) -> (r: bool) {
        let fam_eq = self.kind_name_eq(other);
        let var_eq = match (self.variant, other.variant) {
            (Option::None, Option::None) => true,
            (Option::Some(a), Option::Some(b)) => a == b,
            _ => false,
        };
        fam_eq && var_eq
    }
}

impl vstd::std_specs::cmp::PartialEqSpecImpl for Arch {
    open spec fn obeys_eq_spec() -> bool {
        true
    }

    open spec fn eq_spec(&self, other: &Arch) -> bool {
        self@ == other@
    }
}

impl Arch {
    /// Whether the two families agree in kind and name.
    fn kind_name_eq(&self, other: &Arch) -> (r: bool)
        ensures
            r == (self@.family == other@.family),
    {
        self.family.kind == other.family.kind && str_eq(
            self.family.name.as_str(),
            other.family.name.as_str(),
        )
    }
}

} // verus!
