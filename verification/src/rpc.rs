//! The control-plane protocol: newline-delimited JSON requests and
//! responses over the daemon's socket. Keys are written — and read — in one
//! canonical order; absent optional fields mean the same as null.

use vstd::prelude::*;
use vstd::string::StringExecFns;

use crate::json;
use crate::json::{
    append_json_string, append_str, expect, json_string, parse_string, spec_parse_string,
};

verus! {

/// A request a client sends to the daemon.
#[derive(Debug, Clone)]
pub struct Request {
    pub cmd: String,
    pub device: Option<String>,
    pub opt_param1: Option<String>,
    pub opt_param2: Option<String>,
    pub opt_param3: Option<String>,
}

/// The view of an optional text field.
pub open spec fn opt_view(o: Option<String>) -> Option<Seq<char>> {
    match o {
        Some(s) => Some(s@),
        None => None,
    }
}

pub open spec fn null_lit() -> Seq<char> {
    seq!['n', 'u', 'l', 'l']
}

/// A key with its quotes and colon.
pub open spec fn key_lit(key: Seq<char>) -> Seq<char> {
    seq!['"'] + key + seq!['"'] + seq![':']
}

pub open spec fn cmd_key() -> Seq<char> {
    seq!['c', 'm', 'd']
}

pub open spec fn device_key() -> Seq<char> {
    seq!['d', 'e', 'v', 'i', 'c', 'e']
}

pub open spec fn p1_key() -> Seq<char> {
    seq!['o', 'p', 't', '_', 'p', 'a', 'r', 'a', 'm', '1']
}

pub open spec fn p2_key() -> Seq<char> {
    seq!['o', 'p', 't', '_', 'p', 'a', 'r', 'a', 'm', '2']
}

pub open spec fn p3_key() -> Seq<char> {
    seq!['o', 'p', 't', '_', 'p', 'a', 'r', 'a', 'm', '3']
}

/// A string field's value, or null for an absent one.
pub open spec fn opt_json(o: Option<Seq<char>>) -> Seq<char> {
    match o {
        Some(s) => json_string(s),
        None => null_lit(),
    }
}

/// One `,"key":value` segment followed by the rest of the object.
pub open spec fn ser_str_field(key: Seq<char>, value: Option<Seq<char>>, tail: Seq<char>) -> Seq<
    char,
> {
    seq![','] + key_lit(key) + opt_json(value) + tail
}

/// The serialized form of a request.
pub open spec fn spec_ser_request(
    cmd: Seq<char>,
    device: Option<Seq<char>>,
    p1: Option<Seq<char>>,
    p2: Option<Seq<char>>,
    p3: Option<Seq<char>>,
) -> Seq<char> {
    seq!['{'] + key_lit(cmd_key()) + json_string(cmd) + ser_str_field(
        device_key(),
        device,
        ser_str_field(
            p1_key(),
            p1,
            ser_str_field(p2_key(), p2, ser_str_field(p3_key(), p3, seq!['}'])),
        ),
    )
}

pub open spec fn starts_with(d: Seq<char>, p: Seq<char>) -> bool {
    p.len() <= d.len() && d.subrange(0, p.len() as int) == p
}

/// What parsing one value yields: a text or null.
pub open spec fn spec_parse_value(d: Seq<char>) -> Option<(Option<Seq<char>>, Seq<char>)> {
    if starts_with(d, null_lit()) {
        Some((None, d.skip(4)))
    } else {
        match spec_parse_string(d) {
            Some(p) => Some((Some(p.0), p.1)),
            None => None,
        }
    }
}

/// What parsing one optional `,"key":value` segment yields: the value when
/// the key stands next, or nothing with the input untouched.
pub open spec fn spec_parse_opt_field(d: Seq<char>, key: Seq<char>) -> Option<
    (Option<Seq<char>>, Seq<char>),
> {
    let klit = seq![','] + key_lit(key);
    if starts_with(d, klit) {
        spec_parse_value(d.skip(klit.len() as int))
    } else {
        Some((None, d))
    }
}

/// The last stage of a request: the third optional parameter and the
/// closing brace.
pub open spec fn spec_parse_tail_p3(d: Seq<char>) -> Option<(Option<Seq<char>>, Seq<char>)> {
    match spec_parse_opt_field(d, p3_key()) {
        None => None,
        Some((p3, d2)) => if starts_with(d2, seq!['}']) {
            Some((p3, d2.skip(1)))
        } else {
            None
        },
    }
}

pub open spec fn spec_parse_tail_p2(d: Seq<char>) -> Option<
    ((Option<Seq<char>>, Option<Seq<char>>), Seq<char>),
> {
    match spec_parse_opt_field(d, p2_key()) {
        None => None,
        Some((p2, d2)) => match spec_parse_tail_p3(d2) {
            None => None,
            Some((p3, rest)) => Some(((p2, p3), rest)),
        },
    }
}

pub open spec fn spec_parse_tail_p1(d: Seq<char>) -> Option<
    ((Option<Seq<char>>, Option<Seq<char>>, Option<Seq<char>>), Seq<char>),
> {
    match spec_parse_opt_field(d, p1_key()) {
        None => None,
        Some((p1, d2)) => match spec_parse_tail_p2(d2) {
            None => None,
            Some(((p2, p3), rest)) => Some(((p1, p2, p3), rest)),
        },
    }
}

pub open spec fn spec_parse_tail_device(d: Seq<char>) -> Option<
    ((Option<Seq<char>>, Option<Seq<char>>, Option<Seq<char>>, Option<Seq<char>>), Seq<char>),
> {
    match spec_parse_opt_field(d, device_key()) {
        None => None,
        Some((dev, d2)) => match spec_parse_tail_p1(d2) {
            None => None,
            Some(((p1, p2, p3), rest)) => Some(((dev, p1, p2, p3), rest)),
        },
    }
}

/// The fields of a parsed request.
pub open spec fn spec_parse_request(d: Seq<char>) -> Option<
    ((Seq<char>, Option<Seq<char>>, Option<Seq<char>>, Option<Seq<char>>, Option<Seq<char>>), Seq<
        char,
    >),
> {
    let head = seq!['{'] + key_lit(cmd_key());
    if !starts_with(d, head) {
        None
    } else {
        match spec_parse_string(d.skip(head.len() as int)) {
            None => None,
            Some((cmd, d2)) => match spec_parse_tail_device(d2) {
                None => None,
                Some(((dev, p1, p2, p3), rest)) => Some(((cmd, dev, p1, p2, p3), rest)),
            },
        }
    }
}

impl Request {
    /// A new request carrying a command and possibly a device address.
    pub fn new(cmd: String, device: Option<String>) -> (r: Request)
        ensures
            r.cmd@ == cmd@,
            opt_view(r.device) == opt_view(device),
            r.opt_param1 is None,
            r.opt_param2 is None,
            r.opt_param3 is None,
    {
        Request { cmd, device, opt_param1: None, opt_param2: None, opt_param3: None }
    }

    /// The request's serialized form.
    #[verifier::rlimit(100)]
    #[verifier::spinoff_prover]
    pub fn to_json(&self) -> (r: String)
        ensures
            r@ == spec_ser_request(
                self.cmd@,
                opt_view(self.device),
                opt_view(self.opt_param1),
                opt_view(self.opt_param2),
                opt_view(self.opt_param3),
            ),
    {
        let mut out = String::new();
        proof {
            reveal_strlit("{\"cmd\":");
            reveal_strlit(",\"device\":");
            reveal_strlit(",\"opt_param1\":");
            reveal_strlit(",\"opt_param2\":");
            reveal_strlit(",\"opt_param3\":");
            reveal_strlit("}");
            assert("{\"cmd\":"@ =~= seq!['{'] + key_lit(cmd_key()));
            assert(",\"device\":"@ =~= seq![','] + key_lit(device_key()));
            assert(",\"opt_param1\":"@ =~= seq![','] + key_lit(p1_key()));
            assert(",\"opt_param2\":"@ =~= seq![','] + key_lit(p2_key()));
            assert(",\"opt_param3\":"@ =~= seq![','] + key_lit(p3_key()));
            assert("}"@ =~= seq!['}']);
        }
        append_str(&mut out, "{\"cmd\":");
        append_json_string(&mut out, &self.cmd);
        append_str(&mut out, ",\"device\":");
        append_opt_string(&mut out, &self.device);
        append_str(&mut out, ",\"opt_param1\":");
        append_opt_string(&mut out, &self.opt_param1);
        append_str(&mut out, ",\"opt_param2\":");
        append_opt_string(&mut out, &self.opt_param2);
        append_str(&mut out, ",\"opt_param3\":");
        append_opt_string(&mut out, &self.opt_param3);
        append_str(&mut out, "}");
        proof {
            assert(out@ =~= spec_ser_request(
                self.cmd@,
                opt_view(self.device),
                opt_view(self.opt_param1),
                opt_view(self.opt_param2),
                opt_view(self.opt_param3),
            ));
        }
        out
    }

    /// The bytes to send for a request: its serialized form and a newline.
    pub fn sendable(&self) -> (r: String)
        ensures
            r@ == spec_ser_request(
                self.cmd@,
                opt_view(self.device),
                opt_view(self.opt_param1),
                opt_view(self.opt_param2),
                opt_view(self.opt_param3),
            ) + seq!['\n'],
    {
        let mut out = self.to_json();
        json::push_char(&mut out, '\n');
        proof {
            assert(out@ =~= spec_ser_request(
                self.cmd@,
                opt_view(self.device),
                opt_view(self.opt_param1),
                opt_view(self.opt_param2),
                opt_view(self.opt_param3),
            ) + seq!['\n']);
        }
        out
    }
}

/// Append a string value or null.
pub fn append_opt_string(out: &mut String, o: &Option<String>)
    ensures
        final(out)@ == old(out)@ + opt_json(opt_view(*o)),
{
    match o {
        Some(s) => append_json_string(out, s),
        None => {
            proof {
                reveal_strlit("null");
                assert("null"@ =~= null_lit());
            }
            append_str(out, "null");
        },
    }
}

/// Read a string value or null starting at position `i`.
#[verifier::spinoff_prover]
fn parse_value(v: &[char], i: usize) -> (r: Option<(Option<String>, usize)>)
    requires
        i <= v@.len(),
    ensures
        match r {
            Some(p) => {
                &&& i <= p.1 <= v@.len()
                &&& spec_parse_value(v@.skip(i as int)) == Some(
                    (opt_view(p.0), v@.skip(p.1 as int)),
                )
            },
            None => spec_parse_value(v@.skip(i as int)) is None,
        },
{
    let n = v.len();
    proof {
        reveal_strlit("null");
        assert("null"@ =~= null_lit());
    }
    if expect(v, i, "null") {
        assert(i + 4 <= n);
        proof {
            assert(v@.skip(i as int).subrange(0, 4) =~= v@.subrange(i as int, i as int + 4));
            assert(starts_with(v@.skip(i as int), null_lit()));
            assert(v@.skip(i as int).skip(4) =~= v@.skip(i as int + 4));
        }
        return Some((None, i + 4));
    }
    proof {
        if starts_with(v@.skip(i as int), null_lit()) {
            assert(v@.subrange(i as int, i as int + 4) =~= v@.skip(i as int).subrange(0, 4));
        }
    }
    match parse_string(v, i) {
        Some((s, j)) => Some((Some(s), j)),
        None => None,
    }
}

/// Read one optional `,"key":value` segment.
#[verifier::spinoff_prover]
pub fn parse_opt_field(v: &[char], i: usize, key: &str, klit: Ghost<Seq<char>>) -> (r: Option<
    (Option<String>, usize),
>)
    requires
        i <= v@.len(),
        key@ == seq![','] + key_lit(klit@),
    ensures
        match r {
            Some(p) => {
                &&& i <= p.1 <= v@.len()
                &&& spec_parse_opt_field(v@.skip(i as int), klit@) == Some(
                    (opt_view(p.0), v@.skip(p.1 as int)),
                )
            },
            None => spec_parse_opt_field(v@.skip(i as int), klit@) is None,
        },
{
    let n = v.len();
    let m = key.unicode_len();
    if expect(v, i, key) {
        assert(i + m <= n);
        proof {
            assert(v@.skip(i as int).subrange(0, key@.len() as int) =~= v@.subrange(
                i as int,
                i + key@.len(),
            ));
            assert(starts_with(v@.skip(i as int), seq![','] + key_lit(klit@)));
            assert(v@.skip(i as int).skip(key@.len() as int) =~= v@.skip(i + key@.len()));
        }
        parse_value(v, i + m)
    } else {
        proof {
            if starts_with(v@.skip(i as int), seq![','] + key_lit(klit@)) {
                assert(v@.subrange(i as int, i + key@.len()) =~= v@.skip(i as int).subrange(
                    0,
                    key@.len() as int,
                ));
            }
        }
        Some((None, i))
    }
}

/// Parse one request from its characters; the whole input must be consumed.
#[verifier::spinoff_prover]
pub fn parse_request(v: &[char]) -> (r: Option<Request>)
    ensures
        match r {
            Some(req) => spec_parse_request(v@) matches Some((f, rest)) && {
                &&& req.cmd@ == f.0
                &&& opt_view(req.device) == f.1
                &&& opt_view(req.opt_param1) == f.2
                &&& opt_view(req.opt_param2) == f.3
                &&& opt_view(req.opt_param3) == f.4
                &&& rest.len() == 0
            },
            None => match spec_parse_request(v@) {
                Some((f, rest)) => rest.len() > 0,
                None => true,
            },
        },
{
    proof {
        reveal_strlit("{\"cmd\":");
        assert("{\"cmd\":"@ =~= seq!['{'] + key_lit(cmd_key()));
    }
    if !expect(v, 0, "{\"cmd\":") {
        proof {
            let head = seq!['{'] + key_lit(cmd_key());
            if starts_with(v@, head) {
                assert(v@.subrange(0, 7) =~= v@.skip(0).subrange(0, head.len() as int));
            }
            assert(v@.skip(0) =~= v@);
        }
        return None;
    }
    proof {
        assert(v@.skip(0) =~= v@);
        assert(v@.skip(0).subrange(0, 7) =~= v@.subrange(0, 7));
        assert(starts_with(v@, seq!['{'] + key_lit(cmd_key())));
    }
    let (cmd, i2) = match parse_string(v, 7) {
        Some(p) => p,
        None => {
            return None;
        },
    };
    proof {
        reveal_strlit(",\"device\":");
        assert(",\"device\":"@ =~= seq![','] + key_lit(device_key()));
        reveal_strlit(",\"opt_param1\":");
        assert(",\"opt_param1\":"@ =~= seq![','] + key_lit(p1_key()));
        reveal_strlit(",\"opt_param2\":");
        assert(",\"opt_param2\":"@ =~= seq![','] + key_lit(p2_key()));
        reveal_strlit(",\"opt_param3\":");
        assert(",\"opt_param3\":"@ =~= seq![','] + key_lit(p3_key()));
    }
    let (device, i3) = match parse_opt_field(v, i2, ",\"device\":", Ghost(device_key())) {
        Some(p) => p,
        None => {
            return None;
        },
    };
    let (p1, i4) = match parse_opt_field(v, i3, ",\"opt_param1\":", Ghost(p1_key())) {
        Some(p) => p,
        None => {
            return None;
        },
    };
    let (p2, i5) = match parse_opt_field(v, i4, ",\"opt_param2\":", Ghost(p2_key())) {
        Some(p) => p,
        None => {
            return None;
        },
    };
    let (p3, i6) = match parse_opt_field(v, i5, ",\"opt_param3\":", Ghost(p3_key())) {
        Some(p) => p,
        None => {
            return None;
        },
    };
    proof {
        reveal_strlit("}");
        assert("}"@ =~= seq!['}']);
    }
    let n = v.len();
    if !expect(v, i6, "}") {
        proof {
            if starts_with(v@.skip(i6 as int), seq!['}']) {
                assert(v@.subrange(i6 as int, i6 as int + 1) =~= v@.skip(i6 as int).subrange(0, 1));
            }
        }
        return None;
    }
    assert(i6 + 1 <= n);
    if i6 + 1 != n {
        proof {
            assert(v@.skip(i6 as int).subrange(0, 1) =~= v@.subrange(i6 as int, i6 as int + 1));
            assert(starts_with(v@.skip(i6 as int), seq!['}']));
            assert(v@.skip(i6 as int).skip(1) =~= v@.skip(i6 as int + 1));
        }
        return None;
    }
    proof {
        assert(v@.skip(i6 as int).subrange(0, 1) =~= v@.subrange(i6 as int, i6 as int + 1));
        assert(starts_with(v@.skip(i6 as int), seq!['}']));
        assert(v@.skip(i6 as int).skip(1) =~= v@.skip(i6 as int + 1));
        assert(v@.skip(i6 as int + 1).len() == 0);
    }
    Some(Request { cmd, device, opt_param1: p1, opt_param2: p2, opt_param3: p3 })
}

/// Law: serializing a request and parsing it back yields the same fields,
/// with nothing left unread beyond the trailing input.
#[verifier::spinoff_prover]
pub proof fn lemma_request_round_trip(
    cmd: Seq<char>,
    device: Option<Seq<char>>,
    p1: Option<Seq<char>>,
    p2: Option<Seq<char>>,
    p3: Option<Seq<char>>,
    rest: Seq<char>,
)
    ensures
        spec_parse_request(spec_ser_request(cmd, device, p1, p2, p3) + rest) == Some(
            ((cmd, device, p1, p2, p3), rest),
        ),
{
    let d = spec_ser_request(cmd, device, p1, p2, p3) + rest;
    let head = seq!['{'] + key_lit(cmd_key());
    let tail3 = ser_str_field(p3_key(), p3, seq!['}']);
    let tail2 = ser_str_field(p2_key(), p2, tail3);
    let tail1 = ser_str_field(p1_key(), p1, tail2);
    let tail0 = ser_str_field(device_key(), device, tail1);
    assert(d.subrange(0, head.len() as int) =~= head);
    assert(d.skip(head.len() as int) =~= json_string(cmd) + (tail0 + rest));
    json::lemma_string_round_trip(cmd, tail0 + rest);
    lemma_tail_device_round_trip(device, p1, p2, p3, rest);
}

/// One serialized `,"key":value` segment parses back to its value, leaving
/// the tail.
pub proof fn lemma_field_step(key: Seq<char>, value: Option<Seq<char>>, tail: Seq<char>, rest: Seq<
    char,
>)
    ensures
        spec_parse_opt_field(ser_str_field(key, value, tail) + rest, key) == Some(
            (value, tail + rest),
        ),
{
    let d = ser_str_field(key, value, tail) + rest;
    let klit = seq![','] + key_lit(key);
    assert(d.subrange(0, klit.len() as int) =~= klit);
    assert(starts_with(d, klit));
    assert(d.skip(klit.len() as int) =~= opt_json(value) + (tail + rest));
    lemma_value_round_trip(value, tail + rest);
}

proof fn lemma_tail_device_round_trip(
    device: Option<Seq<char>>,
    p1: Option<Seq<char>>,
    p2: Option<Seq<char>>,
    p3: Option<Seq<char>>,
    rest: Seq<char>,
)
    ensures
        spec_parse_tail_device(
            ser_str_field(
                device_key(),
                device,
                ser_str_field(
                    p1_key(),
                    p1,
                    ser_str_field(p2_key(), p2, ser_str_field(p3_key(), p3, seq!['}'])),
                ),
            ) + rest,
        ) == Some(((device, p1, p2, p3), rest)),
{
    let tail1 = ser_str_field(
        p1_key(),
        p1,
        ser_str_field(p2_key(), p2, ser_str_field(p3_key(), p3, seq!['}'])),
    );
    lemma_field_step(device_key(), device, tail1, rest);
    lemma_tail_p1_round_trip(p1, p2, p3, rest);
}

proof fn lemma_tail_p1_round_trip(
    p1: Option<Seq<char>>,
    p2: Option<Seq<char>>,
    p3: Option<Seq<char>>,
    rest: Seq<char>,
)
    ensures
        spec_parse_tail_p1(
            ser_str_field(
                p1_key(),
                p1,
                ser_str_field(p2_key(), p2, ser_str_field(p3_key(), p3, seq!['}'])),
            ) + rest,
        ) == Some(((p1, p2, p3), rest)),
{
    let tail2 = ser_str_field(p2_key(), p2, ser_str_field(p3_key(), p3, seq!['}']));
    lemma_field_step(p1_key(), p1, tail2, rest);
    lemma_tail_p2_round_trip(p2, p3, rest);
}

proof fn lemma_tail_p2_round_trip(
    p2: Option<Seq<char>>,
    p3: Option<Seq<char>>,
    rest: Seq<char>,
)
    ensures
        spec_parse_tail_p2(
            ser_str_field(p2_key(), p2, ser_str_field(p3_key(), p3, seq!['}'])) + rest,
        ) == Some(((p2, p3), rest)),
{
    let tail3 = ser_str_field(p3_key(), p3, seq!['}']);
    lemma_field_step(p2_key(), p2, tail3, rest);
    lemma_tail_p3_round_trip(p3, rest);
}

proof fn lemma_tail_p3_round_trip(p3: Option<Seq<char>>, rest: Seq<char>)
    ensures
        spec_parse_tail_p3(ser_str_field(p3_key(), p3, seq!['}']) + rest) == Some((p3, rest)),
{
    lemma_field_step(p3_key(), p3, seq!['}'], rest);
    let r2 = seq!['}'] + rest;
    assert(r2.subrange(0, 1) =~= seq!['}']);
    assert(starts_with(r2, seq!['}']));
    assert(r2.skip(1) =~= rest);
}

/// One `,"key":value` segment parses back to its value.
proof fn lemma_opt_field_round_trip(
    key: Seq<char>,
    value: Option<Seq<char>>,
    rest: Seq<char>,
    d: Seq<char>,
)
    requires
        d == seq![','] + key_lit(key) + opt_json(value) + rest,
    ensures
        spec_parse_opt_field(d, key) == Some((value, rest)),
{
    let klit = seq![','] + key_lit(key);
    assert(d.subrange(0, klit.len() as int) =~= klit);
    assert(starts_with(d, klit));
    assert(d.skip(klit.len() as int) =~= opt_json(value) + rest);
    lemma_value_round_trip(value, rest);
}

/// A serialized value parses back to itself.
pub proof fn lemma_value_round_trip(value: Option<Seq<char>>, rest: Seq<char>)
    ensures
        spec_parse_value(opt_json(value) + rest) == Some((value, rest)),
{
    let d = opt_json(value) + rest;
    match value {
        None => {
            assert(d.subrange(0, 4) =~= null_lit());
            assert(starts_with(d, null_lit()));
            assert(d.skip(4) =~= rest);
        },
        Some(s) => {
            assert(d =~= json_string(s) + rest);
            json::lemma_string_round_trip(s, rest);
            // A string value never starts with the null literal.
            assert(d[0] == '"');
            assert(!starts_with(d, null_lit())) by {
                if starts_with(d, null_lit()) {
                    assert(d.subrange(0, 4)[0] == 'n');
                }
            };
        },
    }
}


/// The written form of a flag.
#[verifier::opaque]
pub open spec fn bool_lit(b: bool) -> Seq<char> {
    if b {
        "true"@
    } else {
        "false"@
    }
}

/// Append a flag.
pub fn append_bool(out: &mut String, b: bool)
    ensures
        final(out)@ == old(out)@ + bool_lit(b),
{
    proof {
        reveal(bool_lit);
    }
    if b {
        append_str(out, "true");
    } else {
        append_str(out, "false");
    }
}

/// The name a device model is written as.
pub open spec fn model_name(m: crate::model::Model) -> Seq<char> {
    match m {
        crate::model::Model::Buds => "Buds"@,
        crate::model::Model::BudsPlus => "BudsPlus"@,
        crate::model::Model::BudsLive => "BudsLive"@,
        crate::model::Model::BudsPro => "BudsPro"@,
        crate::model::Model::Buds2 => "Buds2"@,
        crate::model::Model::BudsPro2 => "BudsPro2"@,
    }
}

/// The model's name as text.
pub fn model_name_string(m: crate::model::Model) -> (r: String)
    ensures
        r@ == model_name(m),
{
    match m {
        crate::model::Model::Buds => String::from_str("Buds"),
        crate::model::Model::BudsPlus => String::from_str("BudsPlus"),
        crate::model::Model::BudsLive => String::from_str("BudsLive"),
        crate::model::Model::BudsPro => String::from_str("BudsPro"),
        crate::model::Model::Buds2 => String::from_str("Buds2"),
        crate::model::Model::BudsPro2 => String::from_str("BudsPro2"),
    }
}

/// The serialized debug telemetry block.
#[verifier::opaque]
pub open spec fn spec_ser_debug(d: crate::messages::DebugInfo) -> Seq<char> {
    "{\"voltage_left\":"@ + json::dec_int(d.voltage_left as int) + ",\"voltage_right\":"@
        + json::dec_int(d.voltage_right as int) + ",\"temperature_left\":"@ + json::dec_int(
        d.temperature_left as int,
    ) + ",\"temperature_right\":"@ + json::dec_int(d.temperature_right as int)
        + ",\"current_left\":"@ + json::dec_int(d.current_left as int) + ",\"current_right\":"@
        + json::dec_int(d.current_right as int) + "}"@
}

fn append_debug(out: &mut String, d: &crate::messages::DebugInfo)
    ensures
        final(out)@ == old(out)@ + spec_ser_debug(*d),
{
    proof {
        reveal(spec_ser_debug);
    }
    append_str(out, "{\"voltage_left\":");
    json::append_i32(out, d.voltage_left as i32);
    append_str(out, ",\"voltage_right\":");
    json::append_i32(out, d.voltage_right as i32);
    append_str(out, ",\"temperature_left\":");
    json::append_i32(out, d.temperature_left as i32);
    append_str(out, ",\"temperature_right\":");
    json::append_i32(out, d.temperature_right as i32);
    append_str(out, ",\"current_left\":");
    json::append_i32(out, d.current_left as i32);
    append_str(out, ",\"current_right\":");
    json::append_i32(out, d.current_right as i32);
    append_str(out, "}");
}

/// The serialized extended touchpad-lock block.
#[verifier::opaque]
pub open spec fn spec_ser_tap_lock(t: crate::messages::ExtTapLockStatus) -> Seq<char> {
    "{\"touch_an_hold_on\":"@ + bool_lit(t.touch_an_hold_on) + ",\"triple_tap_on\":"@ + bool_lit(
        t.triple_tap_on,
    ) + ",\"double_tap_on\":"@ + bool_lit(t.double_tap_on) + ",\"tap_on\":"@ + bool_lit(t.tap_on)
        + ",\"touch_controls_on\":"@ + bool_lit(t.touch_controls_on) + "}"@
}

#[verifier::rlimit(100)]
#[verifier::spinoff_prover]
fn append_tap_lock(out: &mut String, t: &crate::messages::ExtTapLockStatus)
    ensures
        final(out)@ == old(out)@ + spec_ser_tap_lock(*t),
{
    proof {
        reveal(spec_ser_tap_lock);
    }
    append_str(out, "{\"touch_an_hold_on\":");
    append_bool(out, t.touch_an_hold_on);
    proof {
        assert(out@ == old(out)@ + "{\"touch_an_hold_on\":"@ + bool_lit(t.touch_an_hold_on));
    }
    append_str(out, ",\"triple_tap_on\":");
    append_bool(out, t.triple_tap_on);
    proof {
        assert(out@ == old(out)@ + "{\"touch_an_hold_on\":"@ + bool_lit(t.touch_an_hold_on)
            + ",\"triple_tap_on\":"@ + bool_lit(t.triple_tap_on));
    }
    append_str(out, ",\"double_tap_on\":");
    append_bool(out, t.double_tap_on);
    proof {
        assert(out@ == old(out)@ + "{\"touch_an_hold_on\":"@ + bool_lit(t.touch_an_hold_on)
            + ",\"triple_tap_on\":"@ + bool_lit(t.triple_tap_on) + ",\"double_tap_on\":"@
            + bool_lit(t.double_tap_on));
    }
    append_str(out, ",\"tap_on\":");
    append_bool(out, t.tap_on);
    proof {
        assert(out@ == old(out)@ + "{\"touch_an_hold_on\":"@ + bool_lit(t.touch_an_hold_on)
            + ",\"triple_tap_on\":"@ + bool_lit(t.triple_tap_on) + ",\"double_tap_on\":"@
            + bool_lit(t.double_tap_on) + ",\"tap_on\":"@ + bool_lit(t.tap_on));
    }
    append_str(out, ",\"touch_controls_on\":");
    append_bool(out, t.touch_controls_on);
    append_str(out, "}");
}

/// A serialized snapshot's identity and battery block.
#[verifier::opaque]
pub open spec fn spec_ser_snap_ident(b: crate::buds_info::BudsInfoInner) -> Seq<char> {
    "{\"address\":"@ + json_string(b.address@) + ",\"ready\":"@ + bool_lit(b.ready)
        + ",\"batt_left\":"@ + json::dec_int(b.batt_left as int) + ",\"batt_right\":"@
        + json::dec_int(b.batt_right as int) + ",\"batt_case\":"@ + json::dec_int(
        b.batt_case as int,
    ) + ",\"placement_left\":"@ + json::dec_int(b.placement_left.spec_encode() as int)
        + ",\"placement_right\":"@ + json::dec_int(b.placement_right.spec_encode() as int)
}

/// A serialized snapshot's sound-feature block.
#[verifier::opaque]
pub open spec fn spec_ser_snap_sound(b: crate::buds_info::BudsInfoInner) -> Seq<char> {
    ",\"equalizer_type\":"@ + json::dec_int(b.equalizer_type.spec_encode() as int)
        + ",\"touchpads_blocked\":"@ + bool_lit(b.touchpads_blocked) + ",\"noise_reduction\":"@
        + bool_lit(b.noise_reduction) + ",\"did_battery_notify\":"@ + bool_lit(
        b.did_battery_notify,
    )
}

/// A serialized snapshot's touchpad block.
#[verifier::opaque]
pub open spec fn spec_ser_snap_touch(b: crate::buds_info::BudsInfoInner) -> Seq<char> {
    ",\"touchpad_option_left\":"@ + json::dec_int(b.touchpad_option_left.spec_encode() as int)
        + ",\"touchpad_option_right\":"@ + json::dec_int(
        b.touchpad_option_right.spec_encode() as int,
    ) + ",\"paused_music_earlier\":"@ + bool_lit(b.paused_music_earlier)
}

/// A serialized snapshot's feature block.
pub open spec fn spec_ser_snap_features(b: crate::buds_info::BudsInfoInner) -> Seq<char> {
    spec_ser_snap_sound(b) + spec_ser_snap_touch(b)
}

/// The first half of a serialized snapshot, through the music flag.
pub open spec fn spec_ser_snapshot_head(b: crate::buds_info::BudsInfoInner) -> Seq<char> {
    spec_ser_snap_ident(b) + spec_ser_snap_features(b)
}

/// The serialized device snapshot a status query returns.
pub open spec fn spec_ser_snapshot(b: crate::buds_info::BudsInfoInner) -> Seq<char> {
    spec_ser_snapshot_head(b) + ",\"debug\":"@ + spec_ser_debug(b.debug) + ",\"model\":"@
        + json_string(model_name(b.model)) + ",\"ambient_sound_enabled\":"@ + bool_lit(
        b.ambient_sound_enabled,
    ) + ",\"ambient_sound_volume\":"@ + json::dec_int(b.ambient_sound_volume as int)
        + ",\"extra_high_ambient_volume\":"@ + bool_lit(b.extra_high_ambient_volume)
        + ",\"tab_lock_status\":"@ + spec_ser_tap_lock(b.tab_lock_status) + "}"@
}

/// Append a device snapshot.
#[verifier::rlimit(100)]
#[verifier::spinoff_prover]
fn append_snap_ident(out: &mut String, b: &crate::buds_info::BudsInfoInner)
    ensures
        final(out)@ == old(out)@ + spec_ser_snap_ident(*b),
{
    proof {
        reveal(spec_ser_snap_ident);
    }
    append_str(out, "{\"address\":");
    append_json_string(out, &b.address);
    append_str(out, ",\"ready\":");
    append_bool(out, b.ready);
    append_str(out, ",\"batt_left\":");
    json::append_i32(out, b.batt_left as i32);
    append_str(out, ",\"batt_right\":");
    json::append_i32(out, b.batt_right as i32);
    append_str(out, ",\"batt_case\":");
    json::append_i32(out, b.batt_case as i32);
    append_str(out, ",\"placement_left\":");
    json::append_i32(out, b.placement_left.encode() as i32);
    append_str(out, ",\"placement_right\":");
    json::append_i32(out, b.placement_right.encode() as i32);
}

#[verifier::spinoff_prover]
fn append_snap_sound(out: &mut String, b: &crate::buds_info::BudsInfoInner)
    ensures
        final(out)@ == old(out)@ + spec_ser_snap_sound(*b),
{
    proof {
        reveal(spec_ser_snap_sound);
    }
    append_str(out, ",\"equalizer_type\":");
    json::append_i32(out, b.equalizer_type.encode() as i32);
    append_str(out, ",\"touchpads_blocked\":");
    append_bool(out, b.touchpads_blocked);
    append_str(out, ",\"noise_reduction\":");
    append_bool(out, b.noise_reduction);
    append_str(out, ",\"did_battery_notify\":");
    append_bool(out, b.did_battery_notify);
}

#[verifier::spinoff_prover]
fn append_snap_touch(out: &mut String, b: &crate::buds_info::BudsInfoInner)
    ensures
        final(out)@ == old(out)@ + spec_ser_snap_touch(*b),
{
    proof {
        reveal(spec_ser_snap_touch);
    }
    append_str(out, ",\"touchpad_option_left\":");
    json::append_i32(out, b.touchpad_option_left.encode() as i32);
    append_str(out, ",\"touchpad_option_right\":");
    json::append_i32(out, b.touchpad_option_right.encode() as i32);
    append_str(out, ",\"paused_music_earlier\":");
    append_bool(out, b.paused_music_earlier);
}

#[verifier::spinoff_prover]
fn append_snap_features(out: &mut String, b: &crate::buds_info::BudsInfoInner)
    ensures
        final(out)@ == old(out)@ + spec_ser_snap_features(*b),
{
    append_snap_sound(out, b);
    append_snap_touch(out, b);
}

#[verifier::spinoff_prover]
fn append_snapshot_head(out: &mut String, b: &crate::buds_info::BudsInfoInner)
    ensures
        final(out)@ == old(out)@ + spec_ser_snapshot_head(*b),
{
    append_snap_ident(out, b);
    append_snap_features(out, b);
}

/// Append a device snapshot.
#[verifier::rlimit(100)]
#[verifier::spinoff_prover]
pub fn append_snapshot(out: &mut String, b: &crate::buds_info::BudsInfoInner)
    ensures
        final(out)@ == old(out)@ + spec_ser_snapshot(*b),
{
    append_snapshot_head(out, b);
    append_str(out, ",\"debug\":");
    append_debug(out, &b.debug);
    append_str(out, ",\"model\":");
    let name = model_name_string(b.model);
    append_json_string(out, &name);
    append_str(out, ",\"ambient_sound_enabled\":");
    append_bool(out, b.ambient_sound_enabled);
    append_str(out, ",\"ambient_sound_volume\":");
    json::append_i32(out, b.ambient_sound_volume as i32);
    append_str(out, ",\"extra_high_ambient_volume\":");
    append_bool(out, b.extra_high_ambient_volume);
    append_str(out, ",\"tab_lock_status\":");
    append_tap_lock(out, &b.tab_lock_status);
    append_str(out, "}");
}

} // verus!
