use vstd::prelude::*;

verus! {

/// True when `a` matches the character `b` exactly, or is the ASCII capital
/// of `b`. Applied against lower-case keywords only, this is exactly a
/// case-insensitive match of one character.
pub open spec fn char_matches_lower(a: char, b: char) -> bool {
    ||| a == b
    ||| (('A' as u32) <= (a as u32) && (a as u32) <= ('Z' as u32) && (a as u32) + 32 == (
    b as u32))
}

/// Character-wise case-insensitive match of `s` against a lower-case keyword
/// `t`.
pub open spec fn seq_matches_lower(s: Seq<char>, t: Seq<char>) -> bool {
    &&& s.len() == t.len()
    &&& forall|i: int| 0 <= i < s.len() ==> char_matches_lower(s[i], t[i])
}

/// Exact string equality, decided character by character.
pub fn str_eq(a: &str, b: &str) -> (r: bool)
    ensures
        r == (a@ == b@),
{
    let n = a.unicode_len();
    let m = b.unicode_len();
    if n != m {
        return false;
    }
    for i in 0..n
        invariant
            n == a@.len(),
            n == b@.len(),
            forall|j: int| 0 <= j < i ==> a@[j] == b@[j],
    {
        if a.get_char(i) != b.get_char(i) {
            return false;
        }
    }
    proof {
        assert(a@ =~= b@);
    }
    true
}

/// Case-insensitive match of `s` against the lower-case keyword `t`, decided
/// character by character.
pub fn str_matches_lower(s: &str, t: &str) -> (r: bool)
    ensures
        r == seq_matches_lower(s@, t@),
{
    let n = s.unicode_len();
    let m = t.unicode_len();
    if n != m {
        return false;
    }
    for i in 0..n
        invariant
            n == s@.len(),
            n == t@.len(),
            forall|j: int| 0 <= j < i ==> char_matches_lower(s@[j], t@[j]),
    {
        let a = s.get_char(i);
        let b = t.get_char(i);
        let a_code = a as u32;
        let b_code = b as u32;
        let folds = a == b || (65 <= a_code && a_code <= 90 && a_code + 32 == b_code);
        if !folds {
            assert(!char_matches_lower(s@[i as int], t@[i as int]));
            return false;
        }
    }
    true
}

} // verus!
