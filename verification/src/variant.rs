//! Instruction-set variants of the 64-bit x86 family.

use vstd::prelude::*;

verus! {

/// An instruction-set tier beyond the generic 64-bit x86 baseline.
///
/// The tiers are strictly increasing in capability: `V2 < V3 < V4`.
#[derive(Debug, Eq, PartialEq, Structural, Clone, Copy, Hash, Ord, PartialOrd)]
pub enum ArchVariant {
    /// Targets 64-bit Intel/AMD CPUs newer than Nehalem (2008).
    /// Includes SSE3, SSE4 and other post-2003 CPU instructions.
    V2,
    /// Targets 64-bit Intel/AMD CPUs newer than Haswell (2013) and Excavator (2015).
    /// Includes AVX, AVX2, MOVBE and other newer CPU instructions.
    V3,
    /// Targets 64-bit Intel/AMD CPUs with AVX-512 instructions (post-2017 Intel CPUs).
    /// Many post-2017 Intel CPUs do not support AVX-512.
    V4,
}

/// The canonical token of each variant.
pub open spec fn variant_name(v: ArchVariant) -> Seq<char> {
    match v {
        ArchVariant::V2 => "v2"@,
        ArchVariant::V3 => "v3"@,
        ArchVariant::V4 => "v4"@,
    }
}

/// The variant a token denotes: exactly the literals `v2`, `v3` and `v4`.
pub open spec fn variant_token(s: Seq<char>) -> Option<ArchVariant> {
    if s == "v2"@ {
        Some(ArchVariant::V2)
    } else if s == "v3"@ {
        Some(ArchVariant::V3)
    } else if s == "v4"@ {
        Some(ArchVariant::V4)
    } else {
        None
    }
}

/// The three variant tokens are pairwise distinct, so each variant's
/// canonical name parses back to that variant alone.
pub proof fn lemma_variant_round_trip(v: ArchVariant)
    ensures
        variant_token(variant_name(v)) == Some(v),
{
    reveal_strlit("v2");
    reveal_strlit("v3");
    reveal_strlit("v4");
    assert("v3"@[1] != "v2"@[1]);
    assert("v4"@[1] != "v2"@[1]);
    assert("v4"@[1] != "v3"@[1]);
}

impl ArchVariant {
    /// Strict parse of a variant token; failure carries no payload because a
    /// variant suffix is optional context within architecture parsing.
    pub fn from_str(s: &str) -> (r: Result<ArchVariant, ()>)
        ensures
            r matches Ok(v) ==> variant_token(s@) == Some(v),
            r is Err ==> variant_token(s@) is None,
    {
        if crate::strutil::str_eq(s, "v2") {
            Ok(ArchVariant::V2)
        } else if crate::strutil::str_eq(s, "v3") {
            Ok(ArchVariant::V3)
        } else if crate::strutil::str_eq(s, "v4") {
            Ok(ArchVariant::V4)
        } else {
            Err(())
        }
    }

    /// The canonical token of the variant.
    pub fn as_str(&self) -> (r: &'static str)
        ensures
            r@ == variant_name(*self),
    {
        match self {
            ArchVariant::V2 => "v2",
            ArchVariant::V3 => "v3",
            ArchVariant::V4 => "v4",
        }
    }

    /// The tier of the variant on a numeric scale; the order of the tiers is
    /// the order of these numbers.
    pub open spec fn rank(self) -> int {
        match self {
            ArchVariant::V2 => 2,
            ArchVariant::V3 => 3,
            ArchVariant::V4 => 4,
        }
    }
}

/// The rank of an optional variant: requesting no variant ranks below every
/// concrete tier.
pub open spec fn opt_variant_rank(v: Option<ArchVariant>) -> int {
    match v {
        None => 0,
        Some(x) => x.rank(),
    }
}

} // verus!
