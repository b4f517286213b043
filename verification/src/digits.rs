//! Decimal numerals: parsing digit strings into integers and formatting
//! integers back, with exact contracts.

use crate::strutil::push_char;
use vstd::prelude::*;

verus! {

/// The character is a decimal digit.
pub open spec fn is_digit_char(c: char) -> bool {
    48 <= c as u32 <= 57
}

/// The value of one decimal digit.
pub open spec fn digit_val(c: char) -> int {
    c as u32 - 48
}

/// Every character of the string is a decimal digit.
pub open spec fn all_digits(s: Seq<char>) -> bool {
    forall|i: int| 0 <= i < s.len() ==> is_digit_char(#[trigger] s[i])
}

/// The number a digit string denotes, most significant digit first.
pub open spec fn digits_val(s: Seq<char>) -> int
    decreases s.len(),
{
    if s.len() == 0 {
        0
    } else {
        digits_val(s.drop_last()) * 10 + digit_val(s.last())
    }
}

/// Extending a digit string can only grow its value.
pub proof fn lemma_digits_prefix_le(s: Seq<char>, i: int)
    requires
        all_digits(s),
        0 <= i <= s.len(),
        digits_val(s.take(i)) >= 0,
    ensures
        digits_val(s) >= digits_val(s.take(i)),
    decreases s.len() - i,
{
    if i == s.len() {
        assert(s.take(i) =~= s);
    } else {
        assert(s.take(i + 1).drop_last() =~= s.take(i));
        assert(s.take(i + 1).last() == s[i]);
        lemma_digits_prefix_le(s, i + 1);
    }
}

/// What a decimal string of digits parses to: its value when every character
/// is a digit, the string is non-empty, and the value fits; nothing otherwise.
pub open spec fn spec_parse_u32(s: Seq<char>) -> Option<u32> {
    if s.len() > 0 && all_digits(s) && digits_val(s) <= u32::MAX {
        Some(digits_val(s) as u32)
    } else {
        None
    }
}

/// Parse a string of decimal digits as a 32-bit unsigned number.
pub fn parse_u32(s: &str) -> (r: Option<u32>)
    ensures
        r == spec_parse_u32(s@),
{
    let len = s.unicode_len();
    if len == 0 {
        return None;
    }
    let mut acc: u64 = 0;
    let mut i: usize = 0;
    while i < len
        invariant
            len == s@.len(),
            0 < len,
            0 <= i <= len,
            all_digits(s@.take(i as int)),
            acc == digits_val(s@.take(i as int)),
            acc <= u32::MAX,
        decreases len - i,
    {
        let c = s.get_char(i);
        let u = c as u32;
        proof {
            assert(s@.take(i + 1).drop_last() =~= s@.take(i as int));
            assert(s@.take(i + 1).last() == s@[i as int]);
        }
        if u < 48 || u > 57 {
            assert(!all_digits(s@));
            return None;
        }
        let d = (u - 48) as u64;
        let next = acc * 10 + d;
        if next > u32::MAX as u64 {
            proof {
                if all_digits(s@) {
                    lemma_digits_prefix_le(s@, i + 1);
                }
            }
            return None;
        }
        acc = next;
        i += 1;
    }
    assert(s@.take(len as int) =~= s@);
    Some(acc as u32)
}

/// What a decimal string parses to as a signed 32-bit number: an optional
/// leading minus sign followed by at least one digit, with the value in range.
pub open spec fn spec_parse_i32(s: Seq<char>) -> Option<i32> {
    if s.len() > 0 && s[0] == '-' {
        let ds = s.skip(1);
        if ds.len() > 0 && all_digits(ds) && -digits_val(ds) >= i32::MIN {
            Some((-digits_val(ds)) as i32)
        } else {
            None
        }
    } else if s.len() > 0 && all_digits(s) && digits_val(s) <= i32::MAX {
        Some(digits_val(s) as i32)
    } else {
        None
    }
}

fn parse_digits_u64(s: &str, from: usize, bound: u64) -> (r: Option<u64>)
    requires
        from <= s@.len(),
        bound <= u32::MAX as u64 + 1,
    ensures
        ({
            let ds = s@.skip(from as int);
            match r {
                Some(v) => ds.len() > 0 && all_digits(ds) && digits_val(ds) == v && v <= bound,
                None => !(ds.len() > 0 && all_digits(ds) && digits_val(ds) <= bound),
            }
        }),
{
    let len = s.unicode_len();
    if from == len {
        return None;
    }
    let ghost ds = s@.skip(from as int);
    let mut acc: u64 = 0;
    let mut i: usize = from;
    while i < len
        invariant
            len == s@.len(),
            from < len,
            from <= i <= len,
            ds == s@.skip(from as int),
            bound <= u32::MAX as u64 + 1,
            all_digits(ds.take(i - from)),
            acc == digits_val(ds.take(i - from)),
            acc <= bound,
        decreases len - i,
    {
        let c = s.get_char(i);
        let u = c as u32;
        proof {
            assert(ds.take(i + 1 - from).drop_last() =~= ds.take(i - from));
            assert(ds.take(i + 1 - from).last() == ds[i - from]);
            assert(ds[i - from] == s@[i as int]);
        }
        if u < 48 || u > 57 {
            assert(!all_digits(ds));
            return None;
        }
        let d = (u - 48) as u64;
        let next = acc * 10 + d;
        if next > bound {
            proof {
                if all_digits(ds) {
                    lemma_digits_prefix_le(ds, i + 1 - from);
                }
            }
            return None;
        }
        acc = next;
        i += 1;
    }
    assert(ds.take(len - from) =~= ds);
    Some(acc)
}

/// Parse a decimal string, with an optional leading minus sign, as a signed
/// 32-bit number.
pub fn parse_i32(s: &str) -> (r: Option<i32>)
    ensures
        r == spec_parse_i32(s@),
{
    let len = s.unicode_len();
    if len == 0 {
        return None;
    }
    if s.get_char(0) == '-' {
        match parse_digits_u64(s, 1, 0x8000_0000u64) {
            Some(v) => {
                let out = -(v as i64);
                assert(i32::MIN <= out <= 0);
                Some(out as i32)
            },
            None => None,
        }
    } else {
        match parse_digits_u64(s, 0, 0x7FFF_FFFFu64) {
            Some(v) => {
                assert(s@.skip(0) =~= s@);
                Some(v as i32)
            },
            None => {
                assert(s@.skip(0) =~= s@);
                None
            },
        }
    }
}

/// The character of one decimal digit.
pub open spec fn spec_digit_char(d: int) -> char {
    if d == 0 {
        '0'
    } else if d == 1 {
        '1'
    } else if d == 2 {
        '2'
    } else if d == 3 {
        '3'
    } else if d == 4 {
        '4'
    } else if d == 5 {
        '5'
    } else if d == 6 {
        '6'
    } else if d == 7 {
        '7'
    } else if d == 8 {
        '8'
    } else {
        '9'
    }
}

/// The decimal numeral of a non-negative number, most significant digit first.
pub open spec fn spec_decimal_digits(n: int) -> Seq<char>
    decreases n,
{
    if n < 10 {
        seq![spec_digit_char(n)]
    } else {
        spec_decimal_digits(n / 10).push(spec_digit_char(n % 10))
    }
}

fn digit_to_char(d: u64) -> (c: char)
    requires
        d < 10,
    ensures
        c == spec_digit_char(d as int),
{
    if d == 0 {
        '0'
    } else if d == 1 {
        '1'
    } else if d == 2 {
        '2'
    } else if d == 3 {
        '3'
    } else if d == 4 {
        '4'
    } else if d == 5 {
        '5'
    } else if d == 6 {
        '6'
    } else if d == 7 {
        '7'
    } else if d == 8 {
        '8'
    } else {
        '9'
    }
}

/// Format a number as its decimal numeral.
pub fn u64_to_string(n: u64) -> (s: String)
    ensures
        s@ == spec_decimal_digits(n as int),
    decreases n,
{
    if n < 10 {
        let mut s = String::new();
        push_char(&mut s, digit_to_char(n));
        assert(s@ =~= seq![spec_digit_char(n as int)]);
        s
    } else {
        let mut s = u64_to_string(n / 10);
        push_char(&mut s, digit_to_char(n % 10));
        s
    }
}

} // verus!
