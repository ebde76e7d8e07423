//! Small verified text utilities: substring search and the decimal parsing
//! used by the kernel-release pre-flight check.

use vstd::prelude::*;
use vstd::string::*;

verus! {

/// Whether `nd` occurs in `h` starting at position `i`.
pub open spec fn matches_at(h: Seq<char>, nd: Seq<char>, i: int) -> bool {
    &&& 0 <= i
    &&& i + nd.len() <= h.len()
    &&& forall|j: int| 0 <= j < nd.len() ==> h[i + j] == nd[j]
}

/// Whether `nd` occurs anywhere in `h`.
pub open spec fn contains_seq(h: Seq<char>, nd: Seq<char>) -> bool {
    exists|i: int| matches_at(h, nd, i)
}

/// Substring search: whether the needle occurs anywhere in the haystack.
pub fn str_contains(haystack: &str, needle: &str) -> (r: bool)
    ensures
        r == contains_seq(haystack@, needle@),
{
    let hn = haystack.unicode_len();
    let nn = needle.unicode_len();
    if nn > hn {
        proof {
            assert forall|i: int| !matches_at(haystack@, needle@, i) by {}
        }
        return false;
    }
    let mut i: usize = 0;
    while i <= hn - nn
        invariant
            hn == haystack@.len(),
            nn == needle@.len(),
            nn <= hn,
            i <= hn - nn + 1,
            forall|k: int| 0 <= k < i ==> !matches_at(haystack@, needle@, k),
        decreases hn - i,
    {
        let mut j: usize = 0;
        while j < nn && haystack.get_char(i + j) == needle.get_char(j)
            invariant
                hn == haystack@.len(),
                nn == needle@.len(),
                i + nn <= hn,
                j <= nn,
                forall|t: int| 0 <= t < j ==> haystack@[i + t] == needle@[t],
            decreases nn - j,
        {
            j = j + 1;
        }
        if j == nn {
            proof {
                assert(matches_at(haystack@, needle@, i as int));
            }
            return true;
        }
        proof {
            assert(!matches_at(haystack@, needle@, i as int));
        }
        i = i + 1;
    }
    proof {
        assert forall|k: int| !matches_at(haystack@, needle@, k) by {
            if 0 <= k < i {
                assert(!matches_at(haystack@, needle@, k));
            }
        }
    }
    false
}

/// Whether `c` is a decimal digit.
pub open spec fn is_digit(c: char) -> bool {
    '0' as int <= c as int && c as int <= '9' as int
}

/// The numeric value of a decimal digit.
pub open spec fn digit_val(c: char) -> int {
    c as int - '0' as int
}

/// Whether every character of `s` is a decimal digit.
pub open spec fn all_digits(s: Seq<char>) -> bool {
    forall|i: int| 0 <= i < s.len() ==> is_digit(s[i])
}

/// The value of a sequence of decimal digits, most significant first.
pub open spec fn digits_val(s: Seq<char>) -> int
    decreases s.len(),
{
    if s.len() == 0 {
        0
    } else {
        digits_val(s.drop_last()) * 10 + digit_val(s.last())
    }
}

/// The value a `u32` decimal parse gives a segment, with every failure —
/// empty, stray character, overflow — collapsed to zero. A single leading
/// `+` is accepted, as Rust's integer parser does.
pub open spec fn parse_u32_or_zero(s: Seq<char>) -> u32 {
    let digits = if s.len() >= 1 && s[0] == '+' {
        s.subrange(1, s.len() as int)
    } else {
        s
    };
    if digits.len() > 0 && all_digits(digits) && digits_val(digits) <= u32::MAX {
        digits_val(digits) as u32
    } else {
        0u32
    }
}

/// A nonempty digit sequence has a non-negative value.
pub proof fn lemma_digits_val_nonneg(s: Seq<char>)
    requires
        all_digits(s),
    ensures
        digits_val(s) >= 0,
    decreases s.len(),
{
    if s.len() > 0 {
        assert(all_digits(s.drop_last())) by {
            assert(forall|i: int| 0 <= i < s.len() - 1 ==> s.drop_last()[i] == s[i]);
        }
        lemma_digits_val_nonneg(s.drop_last());
    }
}

/// Parses the segment `[from, to)` of `s` as Rust's `u32` parser would,
/// collapsing every failure to zero.
pub fn parse_u32_in(s: &str, from: usize, to: usize) -> (r: u32)
    requires
        from <= to <= s@.len(),
    ensures
        r == parse_u32_or_zero(s@.subrange(from as int, to as int)),
{
    let ghost seg = s@.subrange(from as int, to as int);
    let mut start = from;
    if from < to && s.get_char(from) == '+' {
        start = from + 1;
    }
    let ghost digits = s@.subrange(start as int, to as int);
    proof {
        if seg.len() >= 1 && seg[0] == '+' {
            assert(digits =~= seg.subrange(1, seg.len() as int));
        } else {
            assert(digits =~= seg);
        }
    }
    if start == to {
        return 0;
    }
    let mut val: u64 = 0;
    let mut over = false;
    let mut i = start;
    while i < to
        invariant
            start <= i <= to <= s@.len(),
            start < to,
            seg == s@.subrange(from as int, to as int),
            digits == s@.subrange(start as int, to as int),
            digits == (if seg.len() >= 1 && seg[0] == '+' {
                seg.subrange(1, seg.len() as int)
            } else {
                seg
            }),
            all_digits(s@.subrange(start as int, i as int)),
            !over ==> val <= u32::MAX && val == digits_val(s@.subrange(start as int, i as int)),
            over ==> digits_val(s@.subrange(start as int, i as int)) > u32::MAX,
        decreases to - i,
    {
        let c = s.get_char(i);
        let cu = c as u32;
        if !('0' as u32 <= cu && cu <= '9' as u32) {
            proof {
                assert(digits[i - start] == s@[i as int]);
                assert(!is_digit(s@[i as int]));
                assert(!all_digits(digits));
                assert(parse_u32_or_zero(seg) == 0);
            }
            return 0;
        }
        let d: u64 = (cu - '0' as u32) as u64;
        let ghost pre = s@.subrange(start as int, i as int);
        let ghost cur = s@.subrange(start as int, i as int + 1);
        proof {
            assert(cur.drop_last() =~= pre);
            assert(cur.last() == s@[i as int]);
            assert(digits_val(cur) == digits_val(pre) * 10 + digit_val(s@[i as int]));
            assert(all_digits(cur)) by {
                assert(forall|k: int| 0 <= k < pre.len() ==> cur[k] == pre[k]);
            }
        }
        if over {
            proof {
                lemma_digits_val_nonneg(pre);
                assert(digits_val(cur) > u32::MAX);
            }
        } else {
            let next = val * 10 + d;
            if next > u32::MAX as u64 {
                over = true;
            } else {
                val = next;
            }
        }
        i = i + 1;
    }
    proof {
        assert(s@.subrange(start as int, i as int) == digits);
    }
    if over {
        return 0;
    }
    proof {
        assert(digits_val(digits) == val);
        assert(parse_u32_or_zero(seg) == val as u32);
    }
    val as u32
}

/// The first position at or after `from` where `c` occurs in `s`, or the
/// length of `s` when it does not occur there.
pub open spec fn find_char(s: Seq<char>, c: char, from: int) -> int
    recommends
        0 <= from,
    decreases s.len() - from,
{
    if from >= s.len() {
        s.len() as int
    } else if s[from] == c {
        from
    } else {
        find_char(s, c, from + 1)
    }
}

/// If `i` is the first occurrence of `c` at or after `from`, `find_char`
/// returns it.
pub proof fn lemma_find_char_at(s: Seq<char>, c: char, from: int, i: int)
    requires
        0 <= from <= i < s.len(),
        s[i] == c,
        forall|k: int| from <= k < i ==> s[k] != c,
    ensures
        find_char(s, c, from) == i,
    decreases i - from,
{
    if from < i {
        lemma_find_char_at(s, c, from + 1, i);
    }
}

/// If `c` does not occur at or after `from`, `find_char` returns the length.
pub proof fn lemma_find_char_none(s: Seq<char>, c: char, from: int)
    requires
        0 <= from,
        forall|k: int| from <= k < s.len() ==> s[k] != c,
    ensures
        find_char(s, c, from) == s.len(),
    decreases s.len() - from,
{
    if from < s.len() {
        lemma_find_char_none(s, c, from + 1);
    }
}

} // verus!
