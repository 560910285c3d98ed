use vstd::prelude::*;

use vstd::string::StrSliceExecFns;

verus! {

/// Whether `n` occurs in `h`.
pub open spec fn has_substring(h: Seq<char>, n: Seq<char>) -> bool {
    exists|i: int| 0 <= i && i + n.len() <= h.len() && #[trigger] h.subrange(i, i + n.len()) == n
}

/// Whether `needle` occurs in `hay`.
pub fn contains_str(hay: &str, needle: &str) -> (r: bool)
    ensures
        r == has_substring(hay@, needle@),
{
    let hn = hay.unicode_len();
    let nn = needle.unicode_len();
    if nn > hn {
        return false;
    }
    let mut i: usize = 0;
    while i <= hn - nn
        invariant
            hn == hay@.len(),
            nn == needle@.len(),
            nn <= hn,
            forall|k: int| 0 <= k < i ==> #[trigger] hay@.subrange(k, k + nn) != needle@,
        decreases hn - nn + 1 - i,
    {
        let mut j: usize = 0;
        let mut eq = true;
        while j < nn && eq
            invariant
                hn == hay@.len(),
                nn == needle@.len(),
                i + nn <= hn,
                j <= nn,
                eq == forall|t: int| 0 <= t < j ==> hay@[i + t] == needle@[t],
            decreases nn - j,
        {
            if hay.get_char(i + j) != needle.get_char(j) {
                eq = false;
            }
            j = j + 1;
        }
        if eq {
            assert(hay@.subrange(i as int, i + nn) =~= needle@);
            return true;
        }
        assert(hay@.subrange(i as int, i + nn) != needle@) by {
            let t = choose|t: int| 0 <= t < j && hay@[i + t] != needle@[t];
            assert(hay@.subrange(i as int, i + nn)[t] == hay@[i + t]);
        }
        i = i + 1;
    }
    proof {
        assert forall|k: int| 0 <= k && k + needle@.len() <= hay@.len() implies #[trigger] hay@.subrange(
            k,
            k + needle@.len(),
        ) != needle@ by {
            assert(k < i);
        }
    }
    false
}

/// Whether an input device of this name is the function row's digitizer.
pub fn is_digitizer_name(name: &str) -> (r: bool)
    ensures
        r == has_substring(name@, " Touch Bar"@),
{
    contains_str(name, " Touch Bar")
}

} // verus!
