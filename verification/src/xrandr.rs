//! Parsing of display-server query output: geometry strings such as
//! "1920x1080+0+0" and position strings such as "+1920+0".

use crate::digits::{is_digit_char, parse_i32, parse_u32, spec_parse_i32, spec_parse_u32};
use crate::strutil::{find_char, find_char_from, first_char, push_char, substring};
use vstd::prelude::*;

verus! {

/// Index of the first position-sign character ('+' or '-') at or after `i`;
/// the length if none.
pub open spec fn first_sign(s: Seq<char>, i: int) -> int
    decreases s.len() - i,
{
    if i < 0 || i >= s.len() {
        s.len() as int
    } else if s[i] == '+' || s[i] == '-' {
        i
    } else {
        first_sign(s, i + 1)
    }
}

fn find_sign(s: &str, from: usize) -> (r: usize)
    requires
        from <= s@.len(),
    ensures
        r == first_sign(s@, from as int),
        from <= r <= s@.len(),
{
    let slen = s.unicode_len();
    let mut i: usize = from;
    while i < slen
        invariant
            slen == s@.len(),
            from <= i <= slen,
            first_sign(s@, from as int) == first_sign(s@, i as int),
        decreases slen - i,
    {
        let c = s.get_char(i);
        if c == '+' || c == '-' {
            return i;
        }
        i += 1;
    }
    slen
}

/// Index of the first non-digit character at or after `i`; the length if none.
pub open spec fn digits_end(s: Seq<char>, i: int) -> int
    decreases s.len() - i,
{
    if i < 0 || i >= s.len() {
        s.len() as int
    } else if !is_digit_char(s[i]) {
        i
    } else {
        digits_end(s, i + 1)
    }
}

fn read_digits_end(s: &str, from: usize) -> (r: usize)
    requires
        from <= s@.len(),
    ensures
        r == digits_end(s@, from as int),
        from <= r <= s@.len(),
{
    let slen = s.unicode_len();
    let mut i: usize = from;
    while i < slen
        invariant
            slen == s@.len(),
            from <= i <= slen,
            digits_end(s@, from as int) == digits_end(s@, i as int),
        decreases slen - i,
    {
        let c = s.get_char(i);
        let u = c as u32;
        if u < 48 || u > 57 {
            return i;
        }
        i += 1;
    }
    slen
}

/// The signed coordinate run starting at `i`: the sign character there,
/// kept only when it is a minus, followed by the digits after it.
pub open spec fn spec_coord_str(s: Seq<char>, i: int) -> Seq<char> {
    let e = digits_end(s, i + 1);
    if s[i] == '-' {
        seq!['-'] + s.subrange(i + 1, e)
    } else {
        s.subrange(i + 1, e)
    }
}

/// What a position string such as "+1920+0" parses to: two signed
/// coordinates, each a sign followed by its digit run; anything after the
/// second coordinate's digits is ignored.
pub open spec fn spec_parse_position(s: Seq<char>) -> Option<(i32, i32)> {
    if s.len() == 0 || (s[0] != '+' && s[0] != '-') {
        None
    } else {
        let xe = digits_end(s, 1);
        match spec_parse_i32(spec_coord_str(s, 0)) {
            None => None,
            Some(x) => if xe >= s.len() || (s[xe] != '+' && s[xe] != '-') {
                None
            } else {
                match spec_parse_i32(spec_coord_str(s, xe)) {
                    None => None,
                    Some(y) => Some((x, y)),
                }
            },
        }
    }
}

fn read_coord(s: &str, i: usize) -> (r: (Option<i32>, usize))
    requires
        i < s@.len(),
        s@[i as int] == '+' || s@[i as int] == '-',
    ensures
        r.0 == spec_parse_i32(spec_coord_str(s@, i as int)),
        r.1 == digits_end(s@, i as int + 1),
{
    let len = s.unicode_len();
    let e = read_digits_end(s, i + 1);
    let mut buf = String::new();
    if s.get_char(i) == '-' {
        push_char(&mut buf, '-');
    }
    let digits = substring(s, i + 1, e);
    buf.append(digits.as_str());
    assert(buf@ =~= spec_coord_str(s@, i as int));
    (parse_i32(buf.as_str()), e)
}

/// Parse a position string such as "+0+0" or "-100+200" into (x, y).
pub fn parse_position(pos: &str) -> (r: Option<(i32, i32)>)
    ensures
        r == spec_parse_position(pos@),
{
    let len = pos.unicode_len();
    if len == 0 {
        return None;
    }
    let c0 = pos.get_char(0);
    if c0 != '+' && c0 != '-' {
        return None;
    }
    let (xv, xe) = read_coord(pos, 0);
    let x = match xv {
        Some(x) => x,
        None => {
            return None;
        },
    };
    if xe >= len {
        return None;
    }
    let cs = pos.get_char(xe);
    if cs != '+' && cs != '-' {
        return None;
    }
    let (yv, _ye) = read_coord(pos, xe);
    match yv {
        Some(y) => Some((x, y)),
        None => None,
    }
}

/// What a geometry string such as "1920x1080+0+0" parses to: a width and a
/// height separated by exactly one 'x', then optionally a position; a
/// geometry without a position is at the origin.
pub open spec fn spec_parse_geometry(s: Seq<char>) -> Option<((u32, u32), (i32, i32))> {
    let xp = first_char(s, 'x', 0);
    if xp >= s.len() || first_char(s, 'x', xp + 1) < s.len() {
        None
    } else {
        match spec_parse_u32(s.take(xp)) {
            None => None,
            Some(w) => {
                let he = first_sign(s, xp + 1);
                match spec_parse_u32(s.subrange(xp + 1, he)) {
                    None => None,
                    Some(h) => if he >= s.len() {
                        Some(((w, h), (0i32, 0i32)))
                    } else {
                        match spec_parse_position(s.subrange(he, s.len() as int)) {
                            None => None,
                            Some(p) => Some(((w, h), p)),
                        }
                    },
                }
            },
        }
    }
}

/// Parse a geometry string such as "1920x1080+0+0" into ((width, height), (x, y)).
pub fn parse_geometry(geom: &str) -> (r: Option<((u32, u32), (i32, i32))>)
    ensures
        r == spec_parse_geometry(geom@),
{
    let len = geom.unicode_len();
    let xp = find_char(geom, 'x');
    if xp == len {
        return None;
    }
    if find_char_from(geom, 'x', xp + 1) < len {
        return None;
    }
    let w = match parse_u32(substring(geom, 0, xp).as_str()) {
        Some(w) => w,
        None => {
            return None;
        },
    };
    let he = find_sign(geom, xp + 1);
    let h = match parse_u32(substring(geom, xp + 1, he).as_str()) {
        Some(h) => h,
        None => {
            return None;
        },
    };
    if he == len {
        return Some(((w, h), (0, 0)));
    }
    let tail = substring(geom, he, len);
    assert(tail@ =~= geom@.subrange(he as int, geom@.len() as int));
    match parse_position(tail.as_str()) {
        Some(p) => Some(((w, h), p)),
        None => None,
    }
}

} // verus!
