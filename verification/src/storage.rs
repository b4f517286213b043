//! Profile store naming: sanitizing profile names into file names.

use crate::strutil::{eq_ignore_ascii_case, eq_ignore_ascii_case_of, trim, trim_of};
use vstd::prelude::*;

verus! {

/// Characters that may not appear in a profile file name.
pub open spec fn is_invalid_filename_char(c: char) -> bool {
    c == '\\' || c == '/' || c == ':' || c == '*' || c == '?' || c == '"' || c == '<' || c == '>'
        || c == '|'
}

/// The name is one of the host's reserved device-file names, up to ASCII case.
pub open spec fn is_reserved_name(s: Seq<char>) -> bool {
    ||| eq_ignore_ascii_case_of("CON"@, s)
    ||| eq_ignore_ascii_case_of("PRN"@, s)
    ||| eq_ignore_ascii_case_of("AUX"@, s)
    ||| eq_ignore_ascii_case_of("NUL"@, s)
    ||| eq_ignore_ascii_case_of("COM1"@, s)
    ||| eq_ignore_ascii_case_of("COM2"@, s)
    ||| eq_ignore_ascii_case_of("COM3"@, s)
    ||| eq_ignore_ascii_case_of("COM4"@, s)
    ||| eq_ignore_ascii_case_of("COM5"@, s)
    ||| eq_ignore_ascii_case_of("COM6"@, s)
    ||| eq_ignore_ascii_case_of("COM7"@, s)
    ||| eq_ignore_ascii_case_of("COM8"@, s)
    ||| eq_ignore_ascii_case_of("COM9"@, s)
    ||| eq_ignore_ascii_case_of("LPT1"@, s)
    ||| eq_ignore_ascii_case_of("LPT2"@, s)
    ||| eq_ignore_ascii_case_of("LPT3"@, s)
    ||| eq_ignore_ascii_case_of("LPT4"@, s)
    ||| eq_ignore_ascii_case_of("LPT5"@, s)
    ||| eq_ignore_ascii_case_of("LPT6"@, s)
    ||| eq_ignore_ascii_case_of("LPT7"@, s)
    ||| eq_ignore_ascii_case_of("LPT8"@, s)
    ||| eq_ignore_ascii_case_of("LPT9"@, s)
}

fn reserved_name(s: &str) -> (r: bool)
    ensures
        r == is_reserved_name(s@),
{
    eq_ignore_ascii_case("CON", s) || eq_ignore_ascii_case("PRN", s) || eq_ignore_ascii_case(
        "AUX",
        s,
    ) || eq_ignore_ascii_case("NUL", s) || eq_ignore_ascii_case("COM1", s)
        || eq_ignore_ascii_case("COM2", s) || eq_ignore_ascii_case("COM3", s)
        || eq_ignore_ascii_case("COM4", s) || eq_ignore_ascii_case("COM5", s)
        || eq_ignore_ascii_case("COM6", s) || eq_ignore_ascii_case("COM7", s)
        || eq_ignore_ascii_case("COM8", s) || eq_ignore_ascii_case("COM9", s)
        || eq_ignore_ascii_case("LPT1", s) || eq_ignore_ascii_case("LPT2", s)
        || eq_ignore_ascii_case("LPT3", s) || eq_ignore_ascii_case("LPT4", s)
        || eq_ignore_ascii_case("LPT5", s) || eq_ignore_ascii_case("LPT6", s)
        || eq_ignore_ascii_case("LPT7", s) || eq_ignore_ascii_case("LPT8", s)
        || eq_ignore_ascii_case("LPT9", s)
}

/// What a profile name sanitizes to: path-hostile characters dropped, white
/// space trimmed, reserved device-file names guarded with an underscore, and
/// an empty result replaced by a fixed placeholder.
pub open spec fn spec_sanitize_filename(s: Seq<char>) -> Seq<char> {
    let t = trim_of(s.filter(|c: char| !is_invalid_filename_char(c)));
    let guarded = if is_reserved_name(t) {
        seq!['_'] + t
    } else {
        t
    };
    if guarded.len() == 0 {
        "profile"@
    } else {
        guarded
    }
}

/// Sanitize a profile name into a safe file-name stem.
pub fn sanitize_filename(name: &str) -> (r: String)
    ensures
        r@ == spec_sanitize_filename(name@),
{
    let ghost pred = |c: char| !is_invalid_filename_char(c);
    let len = name.unicode_len();
    let mut kept = String::new();
    let mut i: usize = 0;
    proof {
        reveal(Seq::filter);
        assert(name@.take(0) =~= Seq::<char>::empty());
    }
    while i < len
        invariant
            pred == (|c: char| !is_invalid_filename_char(c)),
            len == name@.len(),
            0 <= i <= len,
            kept@ == name@.take(i as int).filter(pred),
        decreases len - i,
    {
        let c = name.get_char(i);
        if !(c == '\\' || c == '/' || c == ':' || c == '*' || c == '?' || c == '"' || c == '<' || c
            == '>' || c == '|') {
            crate::strutil::push_char(&mut kept, c);
        }
        proof {
            reveal(Seq::filter);
            assert(name@.take(i + 1 as int).drop_last() =~= name@.take(i as int));
            assert(name@.take(i + 1 as int).last() == name@[i as int]);
            assert(kept@ == name@.take(i + 1 as int).filter(pred));
        }
        i += 1;
    }
    proof {
        assert(name@.take(len as int) =~= name@);
    }
    let trimmed = trim(kept.as_str());
    let guarded = if reserved_name(trimmed.as_str()) {
        let mut g = String::new();
        crate::strutil::push_char(&mut g, '_');
        g.append(trimmed.as_str());
        assert(g@ =~= seq!['_'] + trimmed@);
        g
    } else {
        trimmed
    };
    if guarded.as_str().unicode_len() == 0 {
        String::from_str("profile")
    } else {
        guarded
    }
}

/// The file-name stem and extension a profile of this name is stored under.
pub fn profile_file_name(name: &str) -> (r: String)
    ensures
        r@ == spec_sanitize_filename(name@) + ".json"@,
{
    let stem = sanitize_filename(name);
    stem.concat(".json")
}

} // verus!
