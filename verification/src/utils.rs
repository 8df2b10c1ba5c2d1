//! Small text helpers: tolerant boolean words, side names, number checks,
//! and case-insensitive matching for device names.

use vstd::prelude::*;

use crate::json;
use crate::properties::Side;

verus! {

/// ASCII lowercase of one character; anything but an upper-case letter is
/// itself.
pub open spec fn to_lower(c: char) -> char {
    match c {
        'A' => 'a',
        'B' => 'b',
        'C' => 'c',
        'D' => 'd',
        'E' => 'e',
        'F' => 'f',
        'G' => 'g',
        'H' => 'h',
        'I' => 'i',
        'J' => 'j',
        'K' => 'k',
        'L' => 'l',
        'M' => 'm',
        'N' => 'n',
        'O' => 'o',
        'P' => 'p',
        'Q' => 'q',
        'R' => 'r',
        'S' => 's',
        'T' => 't',
        'U' => 'u',
        'V' => 'v',
        'W' => 'w',
        'X' => 'x',
        'Y' => 'y',
        'Z' => 'z',
        _ => c,
    }
}

pub open spec fn lower_seq(s: Seq<char>) -> Seq<char> {
    s.map_values(|c: char| to_lower(c))
}

fn lower_char(c: char) -> (r: char)
    ensures
        r == to_lower(c),
{
    match c {
        'A' => 'a',
        'B' => 'b',
        'C' => 'c',
        'D' => 'd',
        'E' => 'e',
        'F' => 'f',
        'G' => 'g',
        'H' => 'h',
        'I' => 'i',
        'J' => 'j',
        'K' => 'k',
        'L' => 'l',
        'M' => 'm',
        'N' => 'n',
        'O' => 'o',
        'P' => 'p',
        'Q' => 'q',
        'R' => 'r',
        'S' => 's',
        'T' => 't',
        'U' => 'u',
        'V' => 'v',
        'W' => 'w',
        'X' => 'x',
        'Y' => 'y',
        'Z' => 'z',
        _ => c,
    }
}

/// The ASCII-lowercased characters of a text.
pub fn lower_chars(s: &str) -> (r: Vec<char>)
    ensures
        r@ == lower_seq(s@),
{
    let cs = json::str_chars(s);
    let n = cs.len();
    let mut out: Vec<char> = Vec::new();
    let mut i: usize = 0;
    while i < n
        invariant
            i <= n == cs@.len(),
            cs@ == s@,
            out@ == lower_seq(s@.subrange(0, i as int)),
        decreases n - i,
    {
        out.push(lower_char(cs[i]));
        proof {
            assert(lower_seq(s@.subrange(0, i as int)).push(to_lower(s@[i as int])) =~= lower_seq(
                s@.subrange(0, i as int + 1),
            ));
        }
        i += 1;
    }
    proof {
        assert(s@.subrange(0, s@.len() as int) =~= s@);
    }
    out
}

/// Whether a character list is exactly a literal.
pub fn chars_eq_lit(v: &Vec<char>, lit: &str) -> (r: bool)
    ensures
        r == (v@ == lit@),
{
    let n = v.len();
    if n != lit.unicode_len() {
        proof {
            assert(v@ != lit@);
        }
        return false;
    }
    let r = json::expect(v.as_slice(), 0, lit);
    proof {
        if r {
            assert(v@.subrange(0, lit@.len() as int) =~= v@);
        } else {
            if v@ == lit@ {
                assert(v@.subrange(0, lit@.len() as int) =~= lit@);
            }
        }
    }
    r
}

/// The words this daemon reads as a boolean, after lowercasing.
pub open spec fn spec_str_to_bool(s: Seq<char>) -> bool {
    ||| lower_seq(s) == "1"@
    ||| lower_seq(s) == "true"@
    ||| lower_seq(s) == "yes"@
    ||| lower_seq(s) == "y"@
    ||| lower_seq(s) == "enabled"@
    ||| lower_seq(s) == "on"@
}

/// Converts a text to a boolean; every unknown word is false.
pub fn str_to_bool(s: &str) -> (r: bool)
    ensures
        r == spec_str_to_bool(s@),
{
    let low = lower_chars(s);
    chars_eq_lit(&low, "1") || chars_eq_lit(&low, "true") || chars_eq_lit(&low, "yes")
        || chars_eq_lit(&low, "y") || chars_eq_lit(&low, "enabled") || chars_eq_lit(&low, "on")
}

/// The words this daemon accepts as some boolean, true or false.
pub open spec fn spec_is_str_bool(s: Seq<char>) -> bool {
    ||| spec_str_to_bool(s)
    ||| lower_seq(s) == "0"@
    ||| lower_seq(s) == "no"@
    ||| lower_seq(s) == "n"@
    ||| lower_seq(s) == "false"@
    ||| lower_seq(s) == "off"@
    ||| lower_seq(s) == "disabled"@
}

/// Whether a text can be read as a boolean at all.
pub fn is_str_bool(s: &str) -> (r: bool)
    ensures
        r == spec_is_str_bool(s@),
{
    if str_to_bool(s) {
        return true;
    }
    let low = lower_chars(s);
    chars_eq_lit(&low, "0") || chars_eq_lit(&low, "no") || chars_eq_lit(&low, "n") || chars_eq_lit(
        &low,
        "false",
    ) || chars_eq_lit(&low, "off") || chars_eq_lit(&low, "disabled")
}

/// The side a parameter names.
pub open spec fn spec_str_to_side(s: Seq<char>) -> Option<Side> {
    if s == "left"@ || s == "l"@ {
        Some(Side::Left)
    } else if s == "right"@ || s == "r"@ {
        Some(Side::Right)
    } else {
        None
    }
}

pub fn str_to_side(s: &str) -> (r: Option<Side>)
    ensures
        r == spec_str_to_side(s@),
{
    let cs = json::str_chars(s);
    if chars_eq_lit(&cs, "left") || chars_eq_lit(&cs, "l") {
        Some(Side::Left)
    } else if chars_eq_lit(&cs, "right") || chars_eq_lit(&cs, "r") {
        Some(Side::Right)
    } else {
        None
    }
}

/// Whether a text is a decimal number a 32-bit signed integer can hold: an
/// optional sign, then digits that stay in range.
pub open spec fn spec_is_number(s: Seq<char>) -> bool {
    if s.len() > 0 && s[0] == '+' {
        match json::spec_parse_uint(s.skip(1)) {
            Some((x, rest)) => rest.len() == 0 && x <= 2147483647,
            None => false,
        }
    } else {
        match json::spec_parse_int(s) {
            Some((x, rest)) => rest.len() == 0 && -2147483648 <= x <= 2147483647,
            None => false,
        }
    }
}

/// Returns true if the input can be read as a 32-bit signed integer.
pub fn is_number(input: &str) -> (r: bool)
    ensures
        r == spec_is_number(input@),
{
    let cs = json::str_chars(input);
    let n = cs.len();
    let start: usize = if n > 0 && cs[0] == '+' {
        1
    } else {
        0
    };
    proof {
        assert(cs@.skip(0) =~= input@);
        if n > 0 {
            assert(cs@.skip(1) =~= input@.skip(1));
        }
    }
    if start == 1 {
        // After a plus sign only an unsigned number may follow.
        if n > 1 && cs[1] == '-' {
            proof {
                assert(input@.skip(1)[0] == input@[1]);
            }
            return false;
        }
        proof {
            if cs@.skip(1).len() > 0 {
                assert(cs@.skip(1)[0] == cs@[1]);
            }
        }
        match json::parse_int(cs.as_slice(), 1) {
            Some((x, j)) => {
                if j == n && x <= 2147483647 {
                    proof {
                        assert(cs@.skip(j as int).len() == 0);
                    }
                    true
                } else {
                    proof {
                        if j == n {
                            assert(cs@.skip(j as int).len() == 0);
                        } else {
                            assert(cs@.skip(j as int).len() > 0);
                        }
                    }
                    false
                }
            },
            None => false,
        }
    } else {
        match json::parse_int(cs.as_slice(), 0) {
            Some((x, j)) => {
                proof {
                    assert(cs@.skip(0) =~= cs@);
                }
                if j == n && -2147483648 <= x && x <= 2147483647 {
                    proof {
                        assert(cs@.skip(j as int).len() == 0);
                    }
                    true
                } else {
                    proof {
                        if j == n {
                            assert(cs@.skip(j as int).len() == 0);
                        } else {
                            assert(cs@.skip(j as int).len() > 0);
                        }
                    }
                    false
                }
            },
            None => false,
        }
    }
}

/// Whether `needle` occurs anywhere inside `hay`.
pub open spec fn spec_contains(hay: Seq<char>, needle: Seq<char>) -> bool {
    exists|i: int|
        0 <= i && i + needle.len() <= hay.len() && #[trigger] hay.subrange(i, i + needle.len())
            == needle
}

/// Substring search by direct comparison at every position.
pub fn contains_lit(hay: &Vec<char>, needle: &str) -> (r: bool)
    ensures
        r == spec_contains(hay@, needle@),
{
    let n = hay.len();
    let m = needle.unicode_len();
    if m > n {
        return false;
    }
    if m == 0 {
        proof {
            assert(hay@.subrange(0int, 0int + needle@.len() as int) =~= needle@);
        }
        return true;
    }
    let mut i: usize = 0;
    while i <= n - m
        invariant
            m <= n == hay@.len(),
            i <= n - m + 1,
            1 <= m == needle@.len(),
            forall|k: int|
                0 <= k < i ==> #[trigger] hay@.subrange(k, k + needle@.len()) != needle@,
        decreases n - m - i + 1,
    {
        if json::expect(hay.as_slice(), i, needle) {
            return true;
        }
        i += 1;
    }
    false
}


/// The literal words "true" and "false" read back as the booleans they
/// name.
pub proof fn lemma_bool_words()
    ensures
        spec_str_to_bool("true"@),
        !spec_str_to_bool("false"@),
{
    reveal_strlit("true");
    reveal_strlit("false");
    reveal_strlit("1");
    reveal_strlit("yes");
    reveal_strlit("y");
    reveal_strlit("enabled");
    reveal_strlit("on");
    assert(lower_seq("true"@) =~= "true"@);
    assert(lower_seq("false"@) =~= "false"@);
}

} // verus!
