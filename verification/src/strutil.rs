//! Small verified helpers on strings: equality, lexicographic comparison and
//! locating the last underscore of a token.

use vstd::prelude::*;
use vstd::string::StrSliceExecFns;

verus! {

/// Index of the last `'_'` in `s`, or `-1` when `s` holds none.
pub open spec fn last_underscore(s: Seq<char>) -> int
    decreases s.len(),
{
    if s.len() == 0 {
        -1
    } else if s[s.len() - 1] == '_' {
        s.len() - 1
    } else {
        last_underscore(s.take(s.len() - 1))
    }
}

/// A sequence without underscores has no last underscore.
pub proof fn lemma_no_underscore(s: Seq<char>)
    requires
        forall|i: int| 0 <= i < s.len() ==> s[i] != '_',
    ensures
        last_underscore(s) == -1,
    decreases s.len(),
{
    if s.len() > 0 {
        lemma_no_underscore(s.take(s.len() - 1));
    }
}

/// Appending `'_'` and then a suffix free of underscores puts the last
/// underscore exactly between the two parts.
pub proof fn lemma_last_underscore_append(a: Seq<char>, b: Seq<char>)
    requires
        forall|i: int| 0 <= i < b.len() ==> b[i] != '_',
    ensures
        last_underscore(a + seq!['_'] + b) == a.len(),
    decreases b.len(),
{
    let s = a + seq!['_'] + b;
    if b.len() == 0 {
        assert(s[s.len() - 1] == '_');
    } else {
        let b2 = b.take(b.len() - 1);
        assert(s[s.len() - 1] == b[b.len() - 1]);
        assert(s.take(s.len() - 1) =~= a + seq!['_'] + b2);
        lemma_last_underscore_append(a, b2);
    }
}

/// Finds the index of the last `'_'` character of `s`, if any.
pub fn find_last_underscore(s: &str) -> (r: Option<usize>)
    ensures
        r matches Some(i) ==> i < s@.len() && last_underscore(s@) == i as int,
        r is None ==> last_underscore(s@) == -1,
{
    let n = s.unicode_len();
    let mut i = n;
    proof {
        assert(s@.take(n as int) =~= s@);
    }
    while i > 0
        invariant
            i <= n,
            n == s@.len(),
            last_underscore(s@) == last_underscore(s@.take(i as int)),
        decreases i,
    {
        i = i - 1;
        let c = s.get_char(i);
        if c == '_' {
            proof {
                let t = s@.take(i as int + 1);
                assert(t[t.len() - 1] == '_');
            }
            return Some(i);
        }
        proof {
            let t = s@.take(i as int + 1);
            assert(t[t.len() - 1] != '_');
            assert(t.take(t.len() - 1) =~= s@.take(i as int));
        }
    }
    proof {
        assert(s@.take(0) =~= Seq::<char>::empty());
    }
    None
}

/// True exactly when the two strings hold the same characters.
pub fn str_eq(a: &str, b: &str) -> (r: bool)
    ensures
        r == (a@ == b@),
{
    let an = a.unicode_len();
    let bn = b.unicode_len();
    if an != bn {
        return false;
    }
    let mut i: usize = 0;
    while i < an
        invariant
            i <= an,
            an == a@.len(),
            an == b@.len(),
            forall|j: int| 0 <= j < i ==> a@[j] == b@[j],
        decreases an - i,
    {
        if a.get_char(i) != b.get_char(i) {
            return false;
        }
        i = i + 1;
    }
    proof {
        assert(a@ =~= b@);
    }
    true
}

/// Lexicographic order over character sequences, by code point.
pub open spec fn lex_cmp(a: Seq<char>, b: Seq<char>) -> core::cmp::Ordering
    decreases a.len(),
{
    if a.len() == 0 && b.len() == 0 {
        core::cmp::Ordering::Equal
    } else if a.len() == 0 {
        core::cmp::Ordering::Less
    } else if b.len() == 0 {
        core::cmp::Ordering::Greater
    } else if a[0] == b[0] {
        lex_cmp(a.skip(1), b.skip(1))
    } else if (a[0] as u32) < (b[0] as u32) {
        core::cmp::Ordering::Less
    } else {
        core::cmp::Ordering::Greater
    }
}

/// Compares two strings lexicographically by code point.
pub fn lex_cmp_str(a: &str, b: &str) -> (r: core::cmp::Ordering)
    ensures
        r == lex_cmp(a@, b@),
{
    let an = a.unicode_len();
    let bn = b.unicode_len();
    let mut i: usize = 0;
    proof {
        assert(a@.skip(0) =~= a@);
        assert(b@.skip(0) =~= b@);
    }
    loop
        invariant
            i <= an,
            i <= bn,
            an == a@.len(),
            bn == b@.len(),
            lex_cmp(a@, b@) == lex_cmp(a@.skip(i as int), b@.skip(i as int)),
        decreases an - i,
    {
        if i == an && i == bn {
            return core::cmp::Ordering::Equal;
        }
        if i == an {
            return core::cmp::Ordering::Less;
        }
        if i == bn {
            return core::cmp::Ordering::Greater;
        }
        let ca = a.get_char(i);
        let cb = b.get_char(i);
        if ca != cb {
            if (ca as u32) < (cb as u32) {
                return core::cmp::Ordering::Less;
            }
            return core::cmp::Ordering::Greater;
        }
        proof {
            assert(a@.skip(i as int).skip(1) =~= a@.skip(i as int + 1));
            assert(b@.skip(i as int).skip(1) =~= b@.skip(i as int + 1));
        }
        i = i + 1;
    }
}

} // verus!
