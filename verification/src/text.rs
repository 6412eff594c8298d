//! Byte and character comparisons on strings.

use vstd::prelude::*;
use vstd::utf8::{encode_utf8, is_ascii_chars, is_ascii_chars_encode_utf8};

verus! {

/// The UTF-8 encoding of a string's characters: the bytes that `as_bytes` gives.
pub closed spec fn utf8_of(s: Seq<char>) -> Seq<u8> {
    encode_utf8(s)
}

/// `utf8_of` is the UTF-8 encoding of the characters.
pub proof fn utf8_of_is_the_encoding(s: Seq<char>)
    ensures
        utf8_of(s) == encode_utf8(s),
{
}

/// The UTF-8 encoding of ASCII characters is one byte per character, the character's code.
pub proof fn utf8_of_ascii(s: Seq<char>)
    requires
        is_ascii_chars(s),
    ensures
        utf8_of(s) == Seq::new(s.len(), |i: int| s[i] as u8),
{
    is_ascii_chars_encode_utf8(s);
    assert(utf8_of(s) =~= Seq::new(s.len(), |i: int| s[i] as u8));
}

/// The UTF-8 bytes of `s`.
pub fn str_bytes(s: &str) -> (b: &[u8])
    ensures
        b@ == utf8_of(s@),
{
    s.as_bytes()
}

/// The index of the first occurrence of `b` in `s`, if there is one.
pub open spec fn first_index_of(s: Seq<u8>, b: u8) -> Option<int> {
    if exists|k: int| 0 <= k < s.len() && s[k] == b {
        Some(choose|k: int| 0 <= k < s.len() && s[k] == b && forall|j: int| 0 <= j < k ==> s[j] != b)
    } else {
        None
    }
}

/// `p` is a prefix of `s`.
pub open spec fn is_prefix(p: Seq<char>, s: Seq<char>) -> bool {
    p.len() <= s.len() && s.subrange(0, p.len() as int) == p
}

/// `p` is a suffix of `s`.
pub open spec fn is_suffix(p: Seq<char>, s: Seq<char>) -> bool {
    p.len() <= s.len() && s.subrange(s.len() - p.len(), s.len() as int) == p
}

/// Finds the first occurrence of byte `b` in `s`.
pub fn find_byte(s: &[u8], b: u8) -> (r: Option<usize>)
    ensures
        r is None <==> first_index_of(s@, b) is None,
        r matches Some(k) ==> k < s.len() && first_index_of(s@, b) == Some(k as int),
{
    let mut i: usize = 0;
    while i < s.len()
        invariant
            i <= s.len(),
            forall|j: int| 0 <= j < i ==> s@[j] != b,
        decreases s.len() - i,
    {
        if s[i] == b {
            proof {
                let k = choose|k: int| 0 <= k < s@.len() && s@[k] == b && forall|j: int| 0 <= j < k ==> s@[j] != b;
                assert(0 <= k < s@.len() && s@[k] == b && forall|j: int| 0 <= j < k ==> s@[j] != b);
                if k < i {
                    assert(s@[k] != b);
                } else if k > i {
                    assert(s@[i as int] != b);
                }
            }
            return Some(i);
        }
        i += 1;
    }
    None
}

/// Whether the bytes `s` are those of the string `lit`.
pub fn bytes_equal_str(s: &[u8], lit: &str) -> (r: bool)
    ensures
        r == (s@ == utf8_of(lit@)),
{
    let t = str_bytes(lit);
    if s.len() != t.len() {
        return false;
    }
    let mut i: usize = 0;
    while i < s.len()
        invariant
            i <= s.len(),
            s.len() == t.len(),
            t@ == utf8_of(lit@),
            forall|j: int| 0 <= j < i ==> s@[j] == t@[j],
        decreases s.len() - i,
    {
        if s[i] != t[i] {
            return false;
        }
        i += 1;
    }
    assert(s@ =~= t@);
    true
}

/// Whether the characters of `p` begin those of `s`.
pub fn starts_with(s: &str, p: &str) -> (r: bool)
    ensures
        r == is_prefix(p@, s@),
{
    let n = p.unicode_len();
    let m = s.unicode_len();
    if n > m {
        return false;
    }
    let mut i: usize = 0;
    while i < n
        invariant
            i <= n,
            n <= m,
            n == p@.len(),
            m == s@.len(),
            forall|j: int| 0 <= j < i ==> s@[j] == p@[j],
        decreases n - i,
    {
        if s.get_char(i) != p.get_char(i) {
            assert(s@.subrange(0, n as int)[i as int] != p@[i as int]);
            return false;
        }
        i += 1;
    }
    assert(s@.subrange(0, n as int) =~= p@);
    true
}

/// Whether the characters of `p` end those of `s`.
pub fn ends_with(s: &str, p: &str) -> (r: bool)
    ensures
        r == is_suffix(p@, s@),
{
    let n = p.unicode_len();
    let m = s.unicode_len();
    if n > m {
        return false;
    }
    let off = m - n;
    let mut i: usize = 0;
    while i < n
        invariant
            i <= n,
            n <= m,
            off == m - n,
            n == p@.len(),
            m == s@.len(),
            forall|j: int| 0 <= j < i ==> s@[off + j] == p@[j],
        decreases n - i,
    {
        if s.get_char(off + i) != p.get_char(i) {
            assert(s@.subrange(off as int, m as int)[i as int] != p@[i as int]);
            return false;
        }
        i += 1;
    }
    assert(s@.subrange(off as int, m as int) =~= p@);
    true
}

} // verus!

verus! {

/// A byte with ASCII upper-case letters mapped to lower case.
pub open spec fn ascii_lower(b: u8) -> u8 {
    if 0x41 <= b <= 0x5a {
        (b + 0x20) as u8
    } else {
        b
    }
}

/// Whether two byte strings are equal once ASCII letters are put in lower case.
pub open spec fn eq_ignore_ascii_case(a: Seq<u8>, b: Seq<u8>) -> bool {
    a.len() == b.len() && forall|i: int| 0 <= i < a.len() ==> ascii_lower(a[i]) == ascii_lower(b[i])
}

/// Compares two byte strings, ignoring the case of ASCII letters.
pub fn bytes_eq_ignore_ascii_case(a: &[u8], b: &[u8]) -> (r: bool)
    ensures
        r == eq_ignore_ascii_case(a@, b@),
{
    if a.len() != b.len() {
        return false;
    }
    let mut i: usize = 0;
    while i < a.len()
        invariant
            i <= a.len(),
            a.len() == b.len(),
            forall|j: int| 0 <= j < i ==> ascii_lower(a@[j]) == ascii_lower(b@[j]),
        decreases a.len() - i,
    {
        let x = if 0x41 <= a[i] && a[i] <= 0x5a { a[i] + 0x20 } else { a[i] };
        let y = if 0x41 <= b[i] && b[i] <= 0x5a { b[i] + 0x20 } else { b[i] };
        if x != y {
            return false;
        }
        i += 1;
    }
    true
}

} // verus!
