//! Text helpers: verified character-level operations, and the trusted
//! boundary to std's Unicode-aware text functions.

use vstd::prelude::*;

verus! {

/// Append one character to a string.
/// Relies on String::push: appends the given character to the end.
#[verifier::external_body]
pub fn push_char(s: &mut String, c: char)
    ensures
        final(s)@ == old(s)@.push(c),
{
    s.push(c);
}

/// What str::to_lowercase returns: the Unicode lowercase mapping of a
/// character sequence.
pub uninterp spec fn lower_of(s: Seq<char>) -> Seq<char>;

/// Relies on str::to_lowercase: the result depends on the characters alone,
/// and an empty string stays empty.
#[verifier::external_body]
pub fn to_lowercase(s: &str) -> (r: String)
    ensures
        r@ == lower_of(s@),
        s@.len() == 0 ==> r@.len() == 0,
{
    s.to_lowercase()
}

/// What String::from_utf16_lossy returns for a sequence of UTF-16 code units.
pub uninterp spec fn utf16_lossy_of(units: Seq<u16>) -> Seq<char>;

/// Relies on String::from_utf16_lossy: decoding depends on the code units
/// alone; an empty buffer decodes to the empty string.
#[verifier::external_body]
pub fn utf16_to_string_lossy(units: &Vec<u16>) -> (r: String)
    ensures
        r@ == utf16_lossy_of(units@),
        units@.len() == 0 ==> r@.len() == 0,
{
    String::from_utf16_lossy(units)
}

/// ASCII uppercase letters map to their lowercase form; everything else is kept.
pub open spec fn ascii_lower_char(c: char) -> char {
    if 65 <= c as u32 && c as u32 <= 90 {
        (((c as u32) + 32) as u8) as char
    } else {
        c
    }
}

/// Lowercase one character if it is an ASCII uppercase letter.
pub fn ascii_to_lower(c: char) -> (r: char)
    ensures
        r == ascii_lower_char(c),
{
    let u = c as u32;
    if 65 <= u && u <= 90 {
        ((u + 32) as u8) as char
    } else {
        c
    }
}

/// Two strings are equal up to ASCII case.
pub open spec fn eq_ignore_ascii_case_of(a: Seq<char>, b: Seq<char>) -> bool {
    a.map_values(|c: char| ascii_lower_char(c)) == b.map_values(|c: char| ascii_lower_char(c))
}

/// Compare two strings ignoring ASCII case.
pub fn eq_ignore_ascii_case(a: &str, b: &str) -> (r: bool)
    ensures
        r == eq_ignore_ascii_case_of(a@, b@),
{
    let alen = a.unicode_len();
    let blen = b.unicode_len();
    if alen != blen {
        assert(a@.map_values(|c: char| ascii_lower_char(c)).len() != b@.map_values(
            |c: char| ascii_lower_char(c),
        ).len());
        return false;
    }
    let mut i: usize = 0;
    while i < alen
        invariant
            alen == a@.len() && alen == b@.len(),
            i <= alen,
            forall|k: int|
                0 <= k < i ==> ascii_lower_char(a@[k]) == ascii_lower_char(b@[k]),
        decreases alen - i,
    {
        if ascii_to_lower(a.get_char(i)) != ascii_to_lower(b.get_char(i)) {
            assert(a@.map_values(|c: char| ascii_lower_char(c))[i as int] != b@.map_values(
                |c: char| ascii_lower_char(c),
            )[i as int]);
            return false;
        }
        i += 1;
    }
    assert(a@.map_values(|c: char| ascii_lower_char(c)) =~= b@.map_values(
        |c: char| ascii_lower_char(c),
    ));
    true
}

/// The Unicode white-space characters, as the `White_Space` property lists them.
pub open spec fn is_space_char(c: char) -> bool {
    ||| (9 <= c as u32 && c as u32 <= 13)
    ||| c as u32 == 32
    ||| c as u32 == 0x85
    ||| c as u32 == 0xA0
    ||| c as u32 == 0x1680
    ||| (0x2000 <= c as u32 && c as u32 <= 0x200A)
    ||| c as u32 == 0x2028
    ||| c as u32 == 0x2029
    ||| c as u32 == 0x202F
    ||| c as u32 == 0x205F
    ||| c as u32 == 0x3000
}

/// Decide whether a character is white space.
pub fn is_space(c: char) -> (r: bool)
    ensures
        r == is_space_char(c),
{
    let u = c as u32;
    (9 <= u && u <= 13) || u == 32 || u == 0x85 || u == 0xA0 || u == 0x1680 || (0x2000 <= u && u
        <= 0x200A) || u == 0x2028 || u == 0x2029 || u == 0x202F || u == 0x205F || u == 0x3000
}

/// Index of the first non-white-space character at or after `i`; the length
/// if there is none.
pub open spec fn first_non_space(s: Seq<char>, i: int) -> int
    decreases s.len() - i,
{
    if i < 0 || i >= s.len() {
        s.len() as int
    } else if !is_space_char(s[i]) {
        i
    } else {
        first_non_space(s, i + 1)
    }
}

/// One past the last non-white-space character before `j`; zero if there is none.
pub open spec fn end_non_space(s: Seq<char>, j: int) -> int
    decreases j,
{
    if j <= 0 || j > s.len() {
        0
    } else if !is_space_char(s[j - 1]) {
        j
    } else {
        end_non_space(s, j - 1)
    }
}

/// A string with leading and trailing white space removed.
pub open spec fn trim_of(s: Seq<char>) -> Seq<char> {
    let a = first_non_space(s, 0);
    if a == s.len() {
        Seq::empty()
    } else {
        s.subrange(a, end_non_space(s, s.len() as int))
    }
}

proof fn lemma_first_non_space_bounds(s: Seq<char>, i: int)
    requires
        0 <= i <= s.len(),
    ensures
        i <= first_non_space(s, i) <= s.len(),
        first_non_space(s, i) < s.len() ==> !is_space_char(s[first_non_space(s, i)]),
    decreases s.len() - i,
{
    if i < s.len() && is_space_char(s[i]) {
        lemma_first_non_space_bounds(s, i + 1);
    }
}

proof fn lemma_end_non_space_past(s: Seq<char>, a: int, j: int)
    requires
        0 <= a < j <= s.len(),
        !is_space_char(s[a]),
    ensures
        a + 1 <= end_non_space(s, j) <= j,
    decreases j,
{
    if j > a + 1 && is_space_char(s[j - 1]) {
        lemma_end_non_space_past(s, a, j - 1);
    }
}

/// Remove leading and trailing white space.
pub fn trim(s: &str) -> (r: String)
    ensures
        r@ == trim_of(s@),
{
    let len = s.unicode_len();
    let mut a: usize = 0;
    while a < len && is_space(s.get_char(a))
        invariant
            len == s@.len(),
            0 <= a <= len,
            first_non_space(s@, 0) == first_non_space(s@, a as int),
        decreases len - a,
    {
        a += 1;
    }
    if a == len {
        return String::new();
    }
    proof {
        lemma_first_non_space_bounds(s@, a as int);
    }
    let mut b: usize = len;
    while is_space(s.get_char(b - 1))
        invariant
            len == s@.len(),
            a < b <= len,
            !is_space_char(s@[a as int]),
            end_non_space(s@, len as int) == end_non_space(s@, b as int),
        decreases b,
    {
        proof {
            lemma_end_non_space_past(s@, a as int, b as int);
        }
        b -= 1;
    }
    let mut out = String::new();
    let mut i: usize = a;
    while i < b
        invariant
            len == s@.len(),
            a <= i <= b <= len,
            out@ == s@.subrange(a as int, i as int),
        decreases b - i,
    {
        push_char(&mut out, s.get_char(i));
        assert(out@ =~= s@.subrange(a as int, i + 1 as int));
        i += 1;
    }
    assert(end_non_space(s@, len as int) == b);
    assert(first_non_space(s@, 0) == a);
    out
}

/// The pattern occurs in `s` at position `i`.
pub open spec fn match_at(s: Seq<char>, pat: Seq<char>, i: int) -> bool {
    0 <= i && i + pat.len() <= s.len() && s.subrange(i, i + pat.len()) == pat
}

/// The pattern occurs somewhere in `s`.
pub open spec fn contains_of(s: Seq<char>, pat: Seq<char>) -> bool {
    exists|i: int| match_at(s, pat, i)
}

/// Check whether the pattern occurs at position `i`.
fn matches_at(s: &str, pat: &str, i: usize) -> (r: bool)
    requires
        i + pat@.len() <= s@.len(),
    ensures
        r == match_at(s@, pat@, i as int),
{
    let slen = s.unicode_len();
    let plen = pat.unicode_len();
    let mut k: usize = 0;
    while k < plen
        invariant
            slen == s@.len(),
            plen == pat@.len(),
            i + plen <= slen,
            0 <= k <= plen,
            forall|m: int| 0 <= m < k ==> s@[i + m] == pat@[m],
        decreases plen - k,
    {
        if s.get_char(i + k) != pat.get_char(k) {
            assert(s@.subrange(i as int, i + plen) != pat@) by {
                assert(s@.subrange(i as int, i + plen)[k as int] != pat@[k as int]);
            }
            return false;
        }
        k += 1;
    }
    assert(s@.subrange(i as int, i + plen) =~= pat@);
    true
}

/// Decide whether `s` contains `pat`.
pub fn str_contains(s: &str, pat: &str) -> (r: bool)
    ensures
        r == contains_of(s@, pat@),
{
    let slen = s.unicode_len();
    let plen = pat.unicode_len();
    if plen > slen {
        assert(forall|i: int| !match_at(s@, pat@, i));
        return false;
    }
    if plen == 0 {
        assert(s@.subrange(0, 0) =~= pat@);
        assert(match_at(s@, pat@, 0));
        return true;
    }
    let mut i: usize = 0;
    while i <= slen - plen
        invariant
            slen == s@.len(),
            plen == pat@.len(),
            0 < plen <= slen,
            0 <= i <= slen - plen + 1,
            forall|m: int| 0 <= m < i ==> !match_at(s@, pat@, m),
        decreases slen - i,
    {
        if matches_at(s, pat, i) {
            return true;
        }
        i += 1;
    }
    assert(forall|m: int| !match_at(s@, pat@, m));
    false
}

/// Decide whether `s` starts with `pat`.
pub fn str_starts_with(s: &str, pat: &str) -> (r: bool)
    ensures
        r == (pat@.len() <= s@.len() && s@.take(pat@.len() as int) == pat@),
{
    let slen = s.unicode_len();
    let plen = pat.unicode_len();
    if plen > slen {
        return false;
    }
    matches_at(s, pat, 0)
}

/// The result of replacing every non-overlapping occurrence of `pat`,
/// scanned left to right, with `rep`.
pub open spec fn replace_of(s: Seq<char>, pat: Seq<char>, rep: Seq<char>) -> Seq<char>
    decreases s.len(),
{
    if pat.len() == 0 || s.len() < pat.len() {
        s
    } else if s.take(pat.len() as int) == pat {
        rep + replace_of(s.skip(pat.len() as int), pat, rep)
    } else {
        seq![s[0]] + replace_of(s.drop_first(), pat, rep)
    }
}

/// Replace every occurrence of `pat` with `rep`, left to right and without
/// rescanning replaced text.
pub fn replace_str(s: &str, pat: &str, rep: &str) -> (r: String)
    requires
        pat@.len() >= 1,
    ensures
        r@ == replace_of(s@, pat@, rep@),
{
    let slen = s.unicode_len();
    let plen = pat.unicode_len();
    let mut out = String::new();
    let mut i: usize = 0;
    assert(s@.skip(0) =~= s@);
    while i < slen
        invariant
            slen == s@.len(),
            plen == pat@.len(),
            plen >= 1,
            0 <= i <= slen,
            out@ + replace_of(s@.skip(i as int), pat@, rep@) == replace_of(s@, pat@, rep@),
        decreases slen - i,
    {
        let ghost pre = out@;
        let ghost tail = s@.skip(i as int);
        if plen <= slen - i && matches_at(s, pat, i) {
            assert(tail.take(plen as int) =~= s@.subrange(i as int, i + plen));
            out.append(rep);
            i += plen;
            assert(tail.skip(plen as int) =~= s@.skip(i as int));
            assert(out@ + replace_of(s@.skip(i as int), pat@, rep@) =~= pre + replace_of(
                tail,
                pat@,
                rep@,
            ));
        } else {
            if plen <= slen - i {
                assert(tail.take(plen as int) =~= s@.subrange(i as int, i + plen));
            } else {
                assert(tail.len() < plen);
            }
            push_char(&mut out, s.get_char(i));
            i += 1;
            assert(tail.drop_first() =~= s@.skip(i as int));
            assert(out@ + replace_of(s@.skip(i as int), pat@, rep@) =~= pre + replace_of(
                tail,
                pat@,
                rep@,
            ));
        }
    }
    assert(s@.skip(slen as int) =~= Seq::<char>::empty());
    assert(out@ =~= replace_of(s@, pat@, rep@));
    out
}

/// Compare two strings character for character.
pub fn str_eq(a: &str, b: &str) -> (r: bool)
    ensures
        r == (a@ == b@),
{
    let alen = a.unicode_len();
    let blen = b.unicode_len();
    if alen != blen {
        return false;
    }
    let mut i: usize = 0;
    while i < alen
        invariant
            alen == a@.len() && alen == b@.len(),
            0 <= i <= alen,
            forall|k: int| 0 <= k < i ==> a@[k] == b@[k],
        decreases alen - i,
    {
        if a.get_char(i) != b.get_char(i) {
            return false;
        }
        i += 1;
    }
    assert(a@ =~= b@);
    true
}

/// Index of the first occurrence of `c` at or after `i`; the length if none.
pub open spec fn first_char(s: Seq<char>, c: char, i: int) -> int
    decreases s.len() - i,
{
    if i < 0 || i >= s.len() {
        s.len() as int
    } else if s[i] == c {
        i
    } else {
        first_char(s, c, i + 1)
    }
}

/// Find the first occurrence of a character.
pub fn find_char(s: &str, c: char) -> (r: usize)
    ensures
        r == first_char(s@, c, 0),
        r <= s@.len(),
{
    find_char_from(s, c, 0)
}

/// Find the first occurrence of a character at or after `from`.
pub fn find_char_from(s: &str, c: char, from: usize) -> (r: usize)
    requires
        from <= s@.len(),
    ensures
        r == first_char(s@, c, from as int),
        from <= r <= s@.len(),
{
    let slen = s.unicode_len();
    let mut i: usize = from;
    while i < slen
        invariant
            slen == s@.len(),
            from <= i <= slen,
            first_char(s@, c, from as int) == first_char(s@, c, i as int),
        decreases slen - i,
    {
        if s.get_char(i) == c {
            return i;
        }
        i += 1;
    }
    slen
}

/// Copy the characters of `s` from `from` (inclusive) to `to` (exclusive).
pub fn substring(s: &str, from: usize, to: usize) -> (r: String)
    requires
        from <= to <= s@.len(),
    ensures
        r@ == s@.subrange(from as int, to as int),
{
    let mut out = String::new();
    let mut i: usize = from;
    while i < to
        invariant
            from <= i <= to <= s@.len(),
            out@ == s@.subrange(from as int, i as int),
        decreases to - i,
    {
        push_char(&mut out, s.get_char(i));
        assert(out@ =~= s@.subrange(from as int, i + 1 as int));
        i += 1;
    }
    out
}

} // verus!
