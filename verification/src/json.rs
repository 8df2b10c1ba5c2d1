//! The control-plane wire format: a compact JSON subset, written and read
//! character by character. Parsers consume a suffix of the input and hand
//! the rest back, so that serializing and parsing compose.

use vstd::prelude::*;
use vstd::string::StrSliceExecFns;

verus! {

/// How one character is written inside a JSON string.
pub open spec fn esc(c: char) -> Seq<char> {
    if c == '"' {
        seq!['\\', '"']
    } else if c == '\\' {
        seq!['\\', '\\']
    } else {
        seq![c]
    }
}

/// A text with its quotes and backslashes escaped.
pub open spec fn escape_seq(s: Seq<char>) -> Seq<char>
    decreases s.len(),
{
    if s.len() == 0 {
        Seq::empty()
    } else {
        esc(s[0]) + escape_seq(s.skip(1))
    }
}

/// A JSON string literal: the escaped text between two quotes.
pub open spec fn json_string(s: Seq<char>) -> Seq<char> {
    seq!['"'] + escape_seq(s) + seq!['"']
}

pub proof fn lemma_escape_push(s: Seq<char>, c: char)
    ensures
        escape_seq(s.push(c)) == escape_seq(s) + esc(c),
    decreases s.len(),
{
    if s.len() == 0 {
        assert(s.push(c).skip(1) =~= Seq::<char>::empty());
        assert(s.push(c)[0] == c);
        assert(escape_seq(Seq::<char>::empty()) == Seq::<char>::empty());
        assert(escape_seq(s.push(c)) == esc(c) + escape_seq(s.push(c).skip(1)));
        assert(escape_seq(s.push(c)) =~= esc(c));
        assert(escape_seq(s) + esc(c) =~= esc(c));
    } else {
        assert(s.push(c).skip(1) =~= s.skip(1).push(c));
        lemma_escape_push(s.skip(1), c);
        assert(s.push(c)[0] == s[0]);
        assert(escape_seq(s.push(c)) == esc(s[0]) + escape_seq(s.skip(1).push(c)));
        assert(esc(s[0]) + (escape_seq(s.skip(1)) + esc(c)) =~= (esc(s[0]) + escape_seq(s.skip(1)))
            + esc(c));
        assert(escape_seq(s.push(c)) =~= escape_seq(s) + esc(c));
    }
}

/// Relies on String::push: appends one character to the string.
#[verifier::external_body]
pub(crate) fn push_char(s: &mut String, c: char)
    ensures
        final(s)@ == old(s)@.push(c),
{
    s.push(c);
}

/// Append a JSON string literal for `text` to `out`.
pub fn append_json_string(out: &mut String, text: &String)
    ensures
        final(out)@ == old(out)@ + json_string(text@),
{
    push_char(out, '"');
    let n = text.as_str().unicode_len();
    let mut i: usize = 0;
    proof {
        assert(text@.subrange(0, 0) =~= Seq::<char>::empty());
        assert(out@ =~= old(out)@ + seq!['"'] + escape_seq(text@.subrange(0, 0)));
    }
    while i < n
        invariant
            i <= n == text@.len(),
            out@ == old(out)@ + seq!['"'] + escape_seq(text@.subrange(0, i as int)),
        decreases n - i,
    {
        let c = text.as_str().get_char(i);
        proof {
            lemma_escape_push(text@.subrange(0, i as int), c);
            assert(text@.subrange(0, i as int).push(c) =~= text@.subrange(0, i as int + 1));
        }
        if c == '"' {
            push_char(out, '\\');
            push_char(out, '"');
        } else if c == '\\' {
            push_char(out, '\\');
            push_char(out, '\\');
        } else {
            push_char(out, c);
        }
        i += 1;
    }
    push_char(out, '"');
    proof {
        assert(text@.subrange(0, text@.len() as int) =~= text@);
        assert(final(out)@ =~= old(out)@ + json_string(text@));
    }
}

/// What parsing a JSON string body (after the opening quote) yields: the
/// unescaped text and the unread rest.
pub open spec fn parse_string_body(d: Seq<char>) -> Option<(Seq<char>, Seq<char>)>
    decreases d.len(),
{
    if d.len() == 0 {
        None
    } else if d[0] == '"' {
        Some((Seq::empty(), d.skip(1)))
    } else if d[0] == '\\' {
        if d.len() >= 2 && (d[1] == '"' || d[1] == '\\') {
            match parse_string_body(d.skip(2)) {
                Some((s, r)) => Some((seq![d[1]] + s, r)),
                None => None,
            }
        } else {
            None
        }
    } else {
        match parse_string_body(d.skip(1)) {
            Some((s, r)) => Some((seq![d[0]] + s, r)),
            None => None,
        }
    }
}

/// What parsing a JSON string yields.
pub open spec fn spec_parse_string(d: Seq<char>) -> Option<(Seq<char>, Seq<char>)> {
    if d.len() > 0 && d[0] == '"' {
        parse_string_body(d.skip(1))
    } else {
        None
    }
}

/// Law: a serialized string parses back to the text it was made from,
/// leaving exactly the trailing input unread.
pub proof fn lemma_string_round_trip(s: Seq<char>, rest: Seq<char>)
    ensures
        spec_parse_string(json_string(s) + rest) == Some((s, rest)),
{
    let d = json_string(s) + rest;
    assert(d[0] == '"');
    assert(d.skip(1) =~= escape_seq(s) + seq!['"'] + rest);
    lemma_string_body_round_trip(s, rest);
}

proof fn lemma_string_body_round_trip(s: Seq<char>, rest: Seq<char>)
    ensures
        parse_string_body(escape_seq(s) + seq!['"'] + rest) == Some((s, rest)),
    decreases s.len(),
{
    let d = escape_seq(s) + seq!['"'] + rest;
    if s.len() == 0 {
        assert(d[0] == '"');
        assert(d.skip(1) =~= rest);
        assert(parse_string_body(d) == Some((Seq::<char>::empty(), rest)));
        assert(Seq::<char>::empty() =~= s);
    } else {
        let c = s[0];
        lemma_string_body_round_trip(s.skip(1), rest);
        if c == '"' || c == '\\' {
            assert(esc(c) =~= seq!['\\', c]);
            assert(d[0] == '\\');
            assert(d[1] == c);
            assert(d.skip(2) =~= escape_seq(s.skip(1)) + seq!['"'] + rest);
            assert(seq![c] + s.skip(1) =~= s);
        } else {
            assert(esc(c) =~= seq![c]);
            assert(d[0] == c);
            assert(d.skip(1) =~= escape_seq(s.skip(1)) + seq!['"'] + rest);
            assert(seq![c] + s.skip(1) =~= s);
        }
    }
}

/// Read a JSON string starting at position `i` of `v`; on success the
/// unescaped text and the position just past the closing quote.
pub fn parse_string(v: &[char], i: usize) -> (r: Option<(String, usize)>)
    requires
        i <= v@.len(),
    ensures
        match r {
            Some(p) => {
                &&& i < p.1 <= v@.len()
                &&& spec_parse_string(v@.skip(i as int)) == Some((p.0@, v@.skip(p.1 as int)))
            },
            None => spec_parse_string(v@.skip(i as int)) is None,
        },
{
    let n = v.len();
    if i >= n || v[i] != '"' {
        return None;
    }
    let mut acc = String::new();
    let mut pos: usize = i + 1;
    proof {
        assert(v@.skip(i as int)[0] == '"');
        assert(v@.skip(i as int).skip(1) =~= v@.skip(i as int + 1));
    }
    loop
        invariant
            i + 1 <= pos <= n == v@.len(),
            acc@.len() <= pos,
            spec_parse_string(v@.skip(i as int)) == match parse_string_body(v@.skip(pos as int)) {
                Some(p) => Some((acc@ + p.0, p.1)),
                None => None::<(Seq<char>, Seq<char>)>,
            },
        decreases n - pos,
    {
        if pos >= n {
            proof {
                assert(v@.skip(pos as int).len() == 0);
            }
            return None;
        }
        let c = v[pos];
        proof {
            assert(v@.skip(pos as int)[0] == c);
        }
        if c == '"' {
            proof {
                assert(v@.skip(pos as int).skip(1) =~= v@.skip(pos as int + 1));
                assert(acc@ + Seq::<char>::empty() =~= acc@);
            }
            return Some((acc, pos + 1));
        }
        if c == '\\' {
            if pos + 1 >= n {
                return None;
            }
            let c2 = v[pos + 1];
            proof {
                assert(v@.skip(pos as int)[1] == c2);
            }
            if c2 != '"' && c2 != '\\' {
                return None;
            }
            proof {
                assert(v@.skip(pos as int).skip(2) =~= v@.skip(pos as int + 2));
                assert(forall|s: Seq<char>| acc@.push(c2) + s =~= acc@ + (seq![c2] + s));
            }
            push_char(&mut acc, c2);
            pos += 2;
        } else {
            proof {
                assert(v@.skip(pos as int).skip(1) =~= v@.skip(pos as int + 1));
                assert(forall|s: Seq<char>| acc@.push(c) + s =~= acc@ + (seq![c] + s));
            }
            push_char(&mut acc, c);
            pos += 1;
        }
    }
}

/// The characters of a text, ready for position-based parsing.
pub fn str_chars(s: &str) -> (r: Vec<char>)
    ensures
        r@ == s@,
{
    let n = s.unicode_len();
    let mut out: Vec<char> = Vec::new();
    let mut i: usize = 0;
    while i < n
        invariant
            i <= n == s@.len(),
            out@ == s@.subrange(0, i as int),
        decreases n - i,
    {
        out.push(s.get_char(i));
        proof {
            assert(s@.subrange(0, i as int).push(s@[i as int]) =~= s@.subrange(0, i as int + 1));
        }
        i += 1;
    }
    proof {
        assert(s@.subrange(0, s@.len() as int) =~= s@);
    }
    out
}

/// Append a literal piece of text.
pub fn append_str(out: &mut String, s: &str)
    ensures
        final(out)@ == old(out)@ + s@,
{
    out.append(s);
}

pub open spec fn digit_char(d: int) -> char {
    if d == 0 {
        '0'
    } else if d == 1 {
        '1'
    } else if d == 2 {
        '2'
    } else if d == 3 {
        '3'
    } else if d == 4 {
        '4'
    } else if d == 5 {
        '5'
    } else if d == 6 {
        '6'
    } else if d == 7 {
        '7'
    } else if d == 8 {
        '8'
    } else {
        '9'
    }
}

pub open spec fn digit_of(c: char) -> int {
    match c {
        '0' => 0,
        '1' => 1,
        '2' => 2,
        '3' => 3,
        '4' => 4,
        '5' => 5,
        '6' => 6,
        '7' => 7,
        '8' => 8,
        '9' => 9,
        _ => -1,
    }
}

pub open spec fn is_digit(c: char) -> bool {
    digit_of(c) >= 0
}

/// The decimal representation of a natural number.
pub open spec fn dec_rep(n: nat) -> Seq<char>
    decreases n,
{
    if n < 10 {
        seq![digit_char(n as int)]
    } else {
        dec_rep(n / 10).push(digit_char((n % 10) as int))
    }
}

/// The decimal representation of an integer.
pub open spec fn dec_int(n: int) -> Seq<char> {
    if n < 0 {
        seq!['-'] + dec_rep((-n) as nat)
    } else {
        dec_rep(n as nat)
    }
}

/// Largest accumulated value the integer parser carries before giving up.
pub const INT_PARSE_CAP: u64 = 1000000000;

/// What parsing a run of digits yields, starting from an accumulated value:
/// the value and the unread rest. Inputs that would run the accumulator
/// past the cap are rejected.
pub open spec fn parse_uint_body(d: Seq<char>, acc: int) -> Option<(int, Seq<char>)>
    decreases d.len(),
{
    if d.len() > 0 && is_digit(d[0]) {
        if acc > INT_PARSE_CAP as int {
            None
        } else {
            parse_uint_body(d.skip(1), acc * 10 + digit_of(d[0]))
        }
    } else {
        Some((acc, d))
    }
}

/// What parsing an unsigned decimal yields: at least one digit is required.
pub open spec fn spec_parse_uint(d: Seq<char>) -> Option<(int, Seq<char>)> {
    if d.len() > 0 && is_digit(d[0]) {
        parse_uint_body(d, 0)
    } else {
        None
    }
}

/// What parsing a decimal with an optional sign yields.
pub open spec fn spec_parse_int(d: Seq<char>) -> Option<(int, Seq<char>)> {
    if d.len() > 0 && d[0] == '-' {
        match spec_parse_uint(d.skip(1)) {
            Some(p) => Some((-p.0, p.1)),
            None => None,
        }
    } else {
        spec_parse_uint(d)
    }
}

/// Append the decimal representation of `x`.
pub fn append_u64(out: &mut String, x: u64)
    ensures
        final(out)@ == old(out)@ + dec_rep(x as nat),
{
    let mut digits: Vec<char> = Vec::new();
    let mut m: u64 = x;
    if m < 10 {
        push_char(out, digit_to_char((m % 10) as u8));
        return;
    }
    while m >= 10
        invariant
            dec_rep(x as nat) == dec_rep(m as nat) + digits@.reverse(),
        decreases m,
    {
        let d = (m % 10) as u8;
        proof {
            assert(dec_rep(m as nat) == dec_rep((m as nat) / 10).push(
                digit_char(((m as nat) % 10) as int),
            ));
            assert(digits@.push(digit_char(((m as nat) % 10) as int)).reverse() =~= seq![
                digit_char(((m as nat) % 10) as int),
            ] + digits@.reverse());
            assert(dec_rep((m as nat) / 10) + (seq![digit_char(((m as nat) % 10) as int)]
                + digits@.reverse()) =~= dec_rep((m as nat) / 10).push(
                digit_char(((m as nat) % 10) as int),
            ) + digits@.reverse());
        }
        digits.push(digit_to_char(d));
        m = m / 10;
    }
    push_char(out, digit_to_char((m % 10) as u8));
    proof {
        assert(dec_rep(m as nat) =~= seq![digit_char((m % 10) as int)]);
        assert(out@ =~= old(out)@ + (dec_rep(m as nat) + digits@.reverse()).subrange(
            0,
            1,
        ) + Seq::<char>::empty());
        assert(out@ =~= old(out)@ + dec_rep(x as nat).subrange(0, 1));
    }
    let k = digits.len();
    let mut j: usize = 0;
    while j < k
        invariant
            j <= k == digits@.len(),
            dec_rep(x as nat) == dec_rep(m as nat) + digits@.reverse(),
            dec_rep(m as nat).len() == 1,
            out@ == old(out)@ + dec_rep(x as nat).subrange(0, 1 + j as int),
        decreases k - j,
    {
        proof {
            assert(digits@.reverse()[j as int] == digits@[k - 1 - j as int]);
            assert(dec_rep(x as nat)[1 + j] == digits@.reverse()[j as int]);
            assert(dec_rep(x as nat).subrange(0, 1 + j as int).push(dec_rep(x as nat)[1 + j])
                =~= dec_rep(x as nat).subrange(0, 2 + j as int));
        }
        push_char(out, digits[k - 1 - j]);
        j += 1;
    }
    proof {
        assert(dec_rep(x as nat).subrange(0, dec_rep(x as nat).len() as int) =~= dec_rep(
            x as nat,
        ));
    }
}

/// Append the decimal representation of a signed value.
pub fn append_i32(out: &mut String, x: i32)
    ensures
        final(out)@ == old(out)@ + dec_int(x as int),
{
    if x < 0 {
        push_char(out, '-');
        let mag: u64 = (-(x as i64)) as u64;
        append_u64(out, mag);
        proof {
            assert(out@ =~= old(out)@ + dec_int(x as int));
        }
    } else {
        append_u64(out, x as u64);
    }
}

fn digit_to_char(d: u8) -> (r: char)
    requires
        d < 10,
    ensures
        r == digit_char(d as int),
{
    match d {
        0 => '0',
        1 => '1',
        2 => '2',
        3 => '3',
        4 => '4',
        5 => '5',
        6 => '6',
        7 => '7',
        8 => '8',
        _ => '9',
    }
}

fn char_digit(c: char) -> (r: i8)
    ensures
        r as int == digit_of(c),
{
    match c {
        '0' => 0,
        '1' => 1,
        '2' => 2,
        '3' => 3,
        '4' => 4,
        '5' => 5,
        '6' => 6,
        '7' => 7,
        '8' => 8,
        '9' => 9,
        _ => -1,
    }
}

/// Read a decimal with an optional sign starting at position `i` of `v`.
pub fn parse_int(v: &[char], i: usize) -> (r: Option<(i64, usize)>)
    requires
        i <= v@.len(),
    ensures
        match r {
            Some(p) => {
                &&& i < p.1 <= v@.len()
                &&& spec_parse_int(v@.skip(i as int)) == Some((p.0 as int, v@.skip(p.1 as int)))
            },
            None => spec_parse_int(v@.skip(i as int)) is None,
        },
{
    let n = v.len();
    if i >= n {
        return None;
    }
    let negative = v[i] == '-';
    let start: usize = if negative {
        i + 1
    } else {
        i
    };
    proof {
        assert(v@.skip(i as int)[0] == v@[i as int]);
        if negative {
            assert(v@.skip(i as int).skip(1) =~= v@.skip(i as int + 1));
        }
    }
    if start >= n {
        return None;
    }
    let first = char_digit(v[start]);
    proof {
        assert(v@.skip(start as int)[0] == v@[start as int]);
    }
    if first < 0 {
        return None;
    }

    let mut acc: u64 = 0;
    let mut pos: usize = start;
    loop
        invariant
            start <= pos <= n == v@.len(),
            i <= start < n,
            negative ==> start == i + 1 && v@[i as int] == '-',
            !negative ==> start == i && v@[i as int] != '-',
            digit_of(v@[start as int]) >= 0,
            pos == start ==> acc == 0,
            acc <= 10 * INT_PARSE_CAP + 9,
            parse_uint_body(v@.skip(start as int), 0) == parse_uint_body(
                v@.skip(pos as int),
                acc as int,
            ),
        ensures
            start < pos <= n,
            acc <= 10 * INT_PARSE_CAP + 9,
            parse_uint_body(v@.skip(start as int), 0) == Some((acc as int, v@.skip(pos as int))),
        decreases n - pos,
    {
        if pos >= n {
            proof {
                assert(v@.skip(pos as int).len() == 0);
                assert(parse_uint_body(v@.skip(pos as int), acc as int) == Some(
                    (acc as int, v@.skip(pos as int)),
                ));
            }
            break;
        }
        let d = char_digit(v[pos]);
        proof {
            assert(v@.skip(pos as int)[0] == v@[pos as int]);
        }
        if d < 0 {
            proof {
                assert(parse_uint_body(v@.skip(pos as int), acc as int) == Some(
                    (acc as int, v@.skip(pos as int)),
                ));
            }
            break;
        }
        if acc > INT_PARSE_CAP {
            proof {
                assert(parse_uint_body(v@.skip(pos as int), acc as int) is None);
                assert(spec_parse_uint(v@.skip(start as int)) is None);
                assert(v@.skip(i as int)[0] == v@[i as int]);
                if negative {
                    assert(v@.skip(i as int).skip(1) =~= v@.skip(start as int));
                    assert(spec_parse_int(v@.skip(i as int)) is None);
                } else {
                    assert(spec_parse_int(v@.skip(i as int)) == spec_parse_uint(
                        v@.skip(i as int),
                    ));
                }
            }
            return None;
        }
        proof {
            assert(v@.skip(pos as int).skip(1) =~= v@.skip(pos as int + 1));
        }
        acc = acc * 10 + (d as u64);
        pos += 1;
    }
    proof {
        assert(spec_parse_uint(v@.skip(start as int)) == Some((acc as int, v@.skip(pos as int))));
        assert(v@.skip(i as int)[0] == v@[i as int]);
        if negative {
            assert(v@.skip(i as int).skip(1) =~= v@.skip(start as int));
        }
    }
    if negative {
        let signed: i64 = -(acc as i64);
        Some((signed, pos))
    } else {
        Some((acc as i64, pos))
    }
}

pub open spec fn pow10(k: nat) -> int
    decreases k,
{
    if k == 0 {
        1
    } else {
        10 * pow10((k - 1) as nat)
    }
}

proof fn lemma_dec_rep_head(m: nat)
    ensures
        dec_rep(m).len() >= 1,
        is_digit(dec_rep(m)[0]),
    decreases m,
{
    if m >= 10 {
        lemma_dec_rep_head(m / 10);
        assert(dec_rep(m)[0] == dec_rep(m / 10)[0]);
    }
}

proof fn lemma_uint_consume(m: nat, a: nat, rest: Seq<char>)
    requires
        a * pow10(dec_rep(m).len() as nat) + m <= 10 * INT_PARSE_CAP as int,
    ensures
        parse_uint_body(dec_rep(m) + rest, a as int) == parse_uint_body(
            rest,
            a * pow10(dec_rep(m).len() as nat) + m,
        ),
    decreases m,
{
    let k = dec_rep(m).len() as nat;
    if m < 10 {
        let d = dec_rep(m) + rest;
        assert(d[0] == digit_char(m as int));
        assert(digit_of(digit_char(m as int)) == m as int);
        assert(pow10(0) == 1);
        assert(pow10(1) == 10);
        assert(a <= INT_PARSE_CAP as int);
        assert(d.skip(1) =~= rest);
        assert(parse_uint_body(d, a as int) == parse_uint_body(rest, a as int * 10 + m as int));
    } else {
        let hi = m / 10;
        let lo = (m % 10) as nat;
        let rest2 = seq![digit_char(lo as int)] + rest;
        assert(dec_rep(m) == dec_rep(hi).push(digit_char(lo as int)));
        assert(dec_rep(m) + rest =~= dec_rep(hi) + rest2);
        let kh = dec_rep(hi).len() as nat;
        assert(k == kh + 1);
        assert(pow10(k) == 10 * pow10(kh));
        // The high digits leave an accumulator ten times smaller.
        assert(10 * (a * pow10(kh) + hi) + lo == a * (10 * pow10(kh)) + (10 * hi + lo))
            by (nonlinear_arith);
        assert(10 * hi + lo == m) by {
            vstd::arithmetic::div_mod::lemma_fundamental_div_mod(m as int, 10);
        };
        assert(pow10(kh) >= 1) by {
            lemma_pow10_pos(kh);
        };
        assert(a * pow10(kh) + hi >= 0) by (nonlinear_arith)
            requires
                a >= 0 && pow10(kh) >= 1 && hi >= 0,
        ;
        lemma_uint_consume(hi, a, rest2);
        let a2 = a * pow10(kh) + hi;
        assert(parse_uint_body(rest2, a2) == parse_uint_body(rest, a2 * 10 + lo)) by {
            assert(rest2[0] == digit_char(lo as int));
            assert(digit_of(digit_char(lo as int)) == lo as int);
            assert(a2 <= INT_PARSE_CAP as int) by (nonlinear_arith)
                requires
                    10 * a2 + lo <= 10 * INT_PARSE_CAP as int && lo >= 0,
            ;
            assert(rest2.skip(1) =~= rest);
        };
    }
}

proof fn lemma_pow10_pos(k: nat)
    ensures
        pow10(k) >= 1,
    decreases k,
{
    if k > 0 {
        lemma_pow10_pos((k - 1) as nat);
    }
}

/// Law: a serialized unsigned decimal parses back to the value it was made
/// from, when the trailing input does not begin with a digit.
pub proof fn lemma_uint_round_trip(m: nat, rest: Seq<char>)
    requires
        m <= INT_PARSE_CAP as int,
        rest.len() == 0 || !is_digit(rest[0]),
    ensures
        spec_parse_uint(dec_rep(m) + rest) == Some((m as int, rest)),
{
    lemma_dec_rep_head(m);
    assert((dec_rep(m) + rest)[0] == dec_rep(m)[0]);
    assert(0 * pow10(dec_rep(m).len() as nat) == 0) by (nonlinear_arith);
    lemma_uint_consume(m, 0, rest);
    assert(parse_uint_body(rest, m as int) == Some((m as int, rest)));
}

/// Law: a serialized signed decimal parses back to the value it was made
/// from, when the trailing input does not begin with a digit.
pub proof fn lemma_int_round_trip(x: int, rest: Seq<char>)
    requires
        -(INT_PARSE_CAP as int) <= x <= INT_PARSE_CAP as int,
        rest.len() == 0 || !is_digit(rest[0]),
    ensures
        spec_parse_int(dec_int(x) + rest) == Some((x, rest)),
{
    if x < 0 {
        let m = (-x) as nat;
        let d = dec_int(x) + rest;
        assert(d[0] == '-');
        assert(d.skip(1) =~= dec_rep(m) + rest);
        lemma_uint_round_trip(m, rest);
    } else {
        let m = x as nat;
        lemma_dec_rep_head(m);
        assert((dec_int(x) + rest)[0] == dec_rep(m)[0]);
        assert(dec_rep(m)[0] != '-');
        assert(dec_int(x) + rest =~= dec_rep(m) + rest);
        lemma_uint_round_trip(m, rest);
    }
}

/// Whether the characters at position `i` of `v` are exactly `lit`.
pub fn expect(v: &[char], i: usize, lit: &str) -> (r: bool)
    requires
        i <= v@.len(),
    ensures
        r == (i + lit@.len() <= v@.len() && v@.subrange(
            i as int,
            i + lit@.len(),
        ) == lit@),
{
    let m = lit.unicode_len();
    let n = v.len();
    if m > n - i {
        return false;
    }
    let mut j: usize = 0;
    while j < m
        invariant
            j <= m == lit@.len(),
            i <= n,
            i + m <= n == v@.len(),
            forall|k: int| 0 <= k < j ==> v@[i + k] == lit@[k],
        decreases m - j,
    {
        let idx: usize = i + j;
        if v[idx] != lit.get_char(j) {
            proof {
                assert(v@.subrange(i as int, i + lit@.len())[j as int] != lit@[j as int]);
            }
            return false;
        }
        j += 1;
    }
    proof {
        assert(v@.subrange(i as int, i + lit@.len()) =~= lit@);
    }
    true
}

} // verus!
