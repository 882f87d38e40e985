//! Character-level string operations with exact specifications.

use vstd::prelude::*;
use vstd::string::*;

verus! {

/// Unicode's White_Space property, the set used by `char::is_whitespace`.
pub open spec fn is_space(c: char) -> bool {
    let u = c as u32;
    (9 <= u && u <= 13) || u == 32 || u == 0x85 || u == 0xA0 || u == 0x1680
        || (0x2000 <= u && u <= 0x200A) || u == 0x2028 || u == 0x2029 || u == 0x202F
        || u == 0x205F || u == 0x3000
}

/// Index of the first character at or after `i` that is not white space.
pub open spec fn skip_spaces(s: Seq<char>, i: int) -> int
    decreases s.len() - i,
{
    if 0 <= i < s.len() && is_space(s[i]) {
        skip_spaces(s, i + 1)
    } else {
        i
    }
}

/// End of `s` once the white space before position `j` (and after `lo`) is dropped.
pub open spec fn drop_trailing_spaces(s: Seq<char>, lo: int, j: int) -> int
    decreases j,
{
    if 0 <= lo < j && j <= s.len() && is_space(s[j - 1]) {
        drop_trailing_spaces(s, lo, j - 1)
    } else {
        j
    }
}

/// `s` without its leading and trailing white space.
pub open spec fn trimmed(s: Seq<char>) -> Seq<char> {
    let lo = skip_spaces(s, 0);
    s.subrange(lo, drop_trailing_spaces(s, lo, s.len() as int))
}

/// ASCII upper-case letters mapped to lower case; every other character kept.
pub open spec fn ascii_lower(c: char) -> char {
    if 'A' <= c && c <= 'Z' {
        ((c as u32) + 32) as char
    } else {
        c
    }
}

pub open spec fn ascii_lower_seq(s: Seq<char>) -> Seq<char> {
    s.map_values(|c: char| ascii_lower(c))
}

/// Equality up to ASCII case, as `str::eq_ignore_ascii_case` compares.
pub open spec fn eq_ignore_case(a: Seq<char>, b: Seq<char>) -> bool {
    ascii_lower_seq(a) == ascii_lower_seq(b)
}

/// `needle` occurs in `hay` as a contiguous run starting at `i`.
pub open spec fn occurs_at(hay: Seq<char>, needle: Seq<char>, i: int) -> bool {
    0 <= i && i + needle.len() <= hay.len() && hay.subrange(i, i + needle.len()) == needle
}

pub open spec fn contains(hay: Seq<char>, needle: Seq<char>) -> bool {
    exists|i: int| occurs_at(hay, needle, i)
}

pub fn is_space_char(c: char) -> (r: bool)
    ensures
        r == is_space(c),
{
    let u = c as u32;
    (9 <= u && u <= 13) || u == 32 || u == 0x85 || u == 0xA0 || u == 0x1680
        || (0x2000 <= u && u <= 0x200A) || u == 0x2028 || u == 0x2029 || u == 0x202F
        || u == 0x205F || u == 0x3000
}

pub fn lower_char(c: char) -> (r: char)
    ensures
        r == ascii_lower(c),
{
    if 'A' <= c && c <= 'Z' {
        ((c as u8) + 32) as char
    } else {
        c
    }
}

/// Exact equality of two strings.
pub fn str_eq(a: &str, b: &str) -> (r: bool)
    ensures
        r == (a@ == b@),
{
    let n = a.unicode_len();
    if n != b.unicode_len() {
        return false;
    }
    let mut i: usize = 0;
    while i < n
        invariant
            n == a@.len(),
            n == b@.len(),
            i <= n,
            forall|k: int| 0 <= k < i ==> a@[k] == b@[k],
        decreases n - i,
    {
        if a.get_char(i) != b.get_char(i) {
            return false;
        }
        i = i + 1;
    }
    assert(a@ =~= b@);
    true
}

/// Equality up to ASCII case.
pub fn eq_ignore_ascii_case(a: &str, b: &str) -> (r: bool)
    ensures
        r == eq_ignore_case(a@, b@),
{
    let n = a.unicode_len();
    if n != b.unicode_len() {
        proof {
            assert(ascii_lower_seq(a@).len() != ascii_lower_seq(b@).len());
        }
        return false;
    }
    let mut i: usize = 0;
    while i < n
        invariant
            n == a@.len(),
            n == b@.len(),
            i <= n,
            forall|k: int| 0 <= k < i ==> ascii_lower(a@[k]) == ascii_lower(b@[k]),
        decreases n - i,
    {
        if lower_char(a.get_char(i)) != lower_char(b.get_char(i)) {
            proof {
                assert(ascii_lower_seq(a@)[i as int] != ascii_lower_seq(b@)[i as int]);
            }
            return false;
        }
        i = i + 1;
    }
    assert(ascii_lower_seq(a@) =~= ascii_lower_seq(b@));
    true
}

/// `s` without leading and trailing white space, as `str::trim` gives it.
pub fn trim(s: &str) -> (r: &str)
    ensures
        r@ == trimmed(s@),
{
    let n = s.unicode_len();
    let mut lo: usize = 0;
    while lo < n && is_space_char(s.get_char(lo))
        invariant
            n == s@.len(),
            lo <= n,
            skip_spaces(s@, lo as int) == skip_spaces(s@, 0),
        decreases n - lo,
    {
        lo = lo + 1;
    }
    let mut hi: usize = n;
    while hi > lo && is_space_char(s.get_char(hi - 1))
        invariant
            n == s@.len(),
            lo <= hi <= n,
            lo == skip_spaces(s@, 0),
            drop_trailing_spaces(s@, lo as int, hi as int) == drop_trailing_spaces(
                s@,
                lo as int,
                n as int,
            ),
        decreases hi,
    {
        hi = hi - 1;
    }
    s.substring_char(lo, hi)
}

/// Whether `needle` occurs in `hay` once both are taken in ASCII lower case.
pub fn contains_ignore_ascii_case(hay: &str, needle: &str) -> (r: bool)
    ensures
        r == contains(ascii_lower_seq(hay@), ascii_lower_seq(needle@)),
{
    let ghost h = ascii_lower_seq(hay@);
    let ghost w = ascii_lower_seq(needle@);
    let n = hay.unicode_len();
    let m = needle.unicode_len();
    if m > n {
        assert forall|i: int| !occurs_at(h, w, i) by {}
        return false;
    }
    let mut i: usize = 0;
    while i <= n - m
        invariant
            n == hay@.len(),
            m == needle@.len(),
            h == ascii_lower_seq(hay@),
            w == ascii_lower_seq(needle@),
            m <= n,
            i <= n - m + 1,
            forall|k: int| 0 <= k < i ==> !occurs_at(h, w, k),
        decreases n - m + 1 - i,
    {
        let mut j: usize = 0;
        let mut same = true;
        while j < m
            invariant
                n == hay@.len(),
                m == needle@.len(),
                h == ascii_lower_seq(hay@),
                w == ascii_lower_seq(needle@),
                i + m <= n,
                j <= m,
                same == (forall|k: int| 0 <= k < j ==> h[i + k] == w[k]),
            decreases m - j,
        {
            let x = lower_char(hay.get_char(i + j));
            let y = lower_char(needle.get_char(j));
            assert(h[i + j] == x && w[j as int] == y);
            if x != y {
                same = false;
            }
            j = j + 1;
        }
        if same {
            assert(h.subrange(i as int, i + m) =~= w);
            assert(occurs_at(h, w, i as int));
            return true;
        }
        proof {
            if occurs_at(h, w, i as int) {
                assert forall|k: int| 0 <= k < m implies h[i + k] == w[k] by {
                    assert(h.subrange(i as int, i + m)[k] == h[i + k]);
                }
            }
        }
        i = i + 1;
    }
    assert forall|k: int| !occurs_at(h, w, k) by {
        if 0 <= k && k + m <= n {
            assert(k < i);
        }
    }
    false
}

/// Whether `s` begins with `prefix`, as `str::starts_with` answers for a string pattern.
pub fn starts_with(s: &str, prefix: &str) -> (r: bool)
    ensures
        r == (prefix@.len() <= s@.len() && s@.subrange(0, prefix@.len() as int) == prefix@),
{
    let n = s.unicode_len();
    let m = prefix.unicode_len();
    if m > n {
        return false;
    }
    let mut j: usize = 0;
    while j < m
        invariant
            n == s@.len(),
            m == prefix@.len(),
            m <= n,
            j <= m,
            forall|k: int| 0 <= k < j ==> s@[k] == prefix@[k],
        decreases m - j,
    {
        if s.get_char(j) != prefix.get_char(j) {
            proof {
                assert(s@.subrange(0, m as int)[j as int] == s@[j as int]);
            }
            return false;
        }
        j = j + 1;
    }
    assert(s@.subrange(0, m as int) =~= prefix@);
    true
}

} // verus!
