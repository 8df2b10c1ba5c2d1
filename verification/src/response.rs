//! The daemon's answer to a control-plane request: a status word, the
//! device it speaks of, an optional message, and — for status queries — a
//! device snapshot.

use vstd::prelude::*;
use vstd::string::StringExecFns;

use crate::buds_info::BudsInfoInner;
use crate::json;
use crate::json::{
    append_json_string, append_str, expect, json_string, parse_string, spec_parse_string,
};
use crate::rpc;
use crate::rpc::{
    append_snapshot, device_key, key_lit, null_lit, opt_json, opt_view, ser_str_field,
    spec_parse_opt_field, spec_ser_snapshot, starts_with,
};

verus! {

/// A response the daemon sends back over the socket.
#[derive(Debug, Clone)]
pub struct Response {
    pub status: String,
    pub device: String,
    pub status_message: Option<String>,
    pub payload: Option<BudsInfoInner>,
}

pub open spec fn status_key() -> Seq<char> {
    seq!['s', 't', 'a', 't', 'u', 's']
}

pub open spec fn msg_key() -> Seq<char> {
    seq!['s', 't', 'a', 't', 'u', 's', '_', 'm', 'e', 's', 's', 'a', 'g', 'e']
}

pub open spec fn payload_key() -> Seq<char> {
    seq!['p', 'a', 'y', 'l', 'o', 'a', 'd']
}

/// The payload field's value: a snapshot or null.
pub open spec fn payload_json(p: Option<BudsInfoInner>) -> Seq<char> {
    match p {
        Some(b) => spec_ser_snapshot(b),
        None => null_lit(),
    }
}

/// The serialized form of a response.
pub open spec fn spec_ser_response(
    status: Seq<char>,
    device: Seq<char>,
    msg: Option<Seq<char>>,
    payload: Option<BudsInfoInner>,
) -> Seq<char> {
    seq!['{'] + key_lit(status_key()) + json_string(status) + ser_str_field(
        device_key(),
        Some(device),
        ser_str_field(
            msg_key(),
            msg,
            seq![','] + key_lit(payload_key()) + payload_json(payload) + seq!['}'],
        ),
    )
}

/// What parsing a response yields: its status, device and message. Only
/// responses whose payload is null are read back; a client asks for the
/// fields, not for a whole snapshot.
pub open spec fn spec_parse_response(d: Seq<char>) -> Option<
    ((Seq<char>, Seq<char>, Option<Seq<char>>), Seq<char>),
> {
    let head = seq!['{'] + key_lit(status_key());
    let tail_lit = seq![','] + key_lit(payload_key()) + null_lit() + seq!['}'];
    if !starts_with(d, head) {
        None
    } else {
        match spec_parse_string(d.skip(head.len() as int)) {
            None => None,
            Some((status, d2)) => match spec_parse_opt_field(d2, device_key()) {
                None => None,
                Some((dev, d3)) => if dev is None {
                    None
                } else {
                    match spec_parse_opt_field(d3, msg_key()) {
                        None => None,
                        Some((msg, d4)) => if starts_with(d4, tail_lit) {
                            Some(((status, dev->Some_0, msg), d4.skip(tail_lit.len() as int)))
                        } else {
                            None
                        },
                    }
                },
            },
        }
    }
}

impl Response {
    /// A new success response.
    pub fn new_success(device_addr: String, payload: Option<BudsInfoInner>) -> (r: Response)
        ensures
            r.status@ == "success"@,
            r.device@ == device_addr@,
            r.status_message is None,
            r.payload == payload,
    {
        Response {
            status: String::from_str("success"),
            device: device_addr,
            status_message: None,
            payload,
        }
    }

    /// A new error response.
    pub fn new_error(device: String, message: String) -> (r: Response)
        ensures
            r.status@ == "error"@,
            r.device@ == device@,
            r.status_message matches Some(m) && m@ == message@,
            r.payload is None,
    {
        Response {
            status: String::from_str("error"),
            device,
            status_message: Some(message),
            payload: None,
        }
    }

    /// Whether the response reports a success.
    pub fn is_success(&self) -> (r: bool)
        ensures
            r == (self.status@ == "success"@),
    {
        let probe = String::from_str("success");
        self.status == probe
    }

    /// Whether the response reports an error.
    pub fn is_error(&self) -> (r: bool)
        ensures
            r == (self.status@ != "success"@),
    {
        !self.is_success()
    }

    /// The response's serialized form.
    #[verifier::spinoff_prover]
    pub fn to_json(&self) -> (r: String)
        ensures
            r@ == spec_ser_response(
                self.status@,
                self.device@,
                opt_view(self.status_message),
                self.payload,
            ),
    {
        let mut out = String::new();
        proof {
            reveal_strlit("{\"status\":");
            reveal_strlit(",\"device\":");
            reveal_strlit(",\"status_message\":");
            reveal_strlit(",\"payload\":");
            reveal_strlit("}");
            assert("{\"status\":"@ =~= seq!['{'] + key_lit(status_key()));
            assert(",\"device\":"@ =~= seq![','] + key_lit(device_key()));
            assert(",\"status_message\":"@ =~= seq![','] + key_lit(msg_key()));
            assert(",\"payload\":"@ =~= seq![','] + key_lit(payload_key()));
            assert("}"@ =~= seq!['}']);
        }
        append_str(&mut out, "{\"status\":");
        append_json_string(&mut out, &self.status);
        append_str(&mut out, ",\"device\":");
        append_json_string(&mut out, &self.device);
        append_str(&mut out, ",\"status_message\":");
        rpc::append_opt_string(&mut out, &self.status_message);
        append_str(&mut out, ",\"payload\":");
        match &self.payload {
            Some(b) => append_snapshot(&mut out, b),
            None => {
                proof {
                    reveal_strlit("null");
                    assert("null"@ =~= null_lit());
                }
                append_str(&mut out, "null");
            },
        }
        append_str(&mut out, "}");
        proof {
            assert(out@ =~= spec_ser_response(
                self.status@,
                self.device@,
                opt_view(self.status_message),
                self.payload,
            ));
        }
        out
    }

    /// Read a response back from its serialized form; only payload-free
    /// responses are read.
    #[verifier::spinoff_prover]
    pub fn from_string(s: &str) -> (r: Option<Response>)
        ensures
            match r {
                Some(resp) => spec_parse_response(s@) matches Some((f, rest)) && {
                    &&& resp.status@ == f.0
                    &&& resp.device@ == f.1
                    &&& opt_view(resp.status_message) == f.2
                    &&& resp.payload is None
                    &&& rest.len() == 0
                },
                None => match spec_parse_response(s@) {
                    Some((f, rest)) => rest.len() > 0,
                    None => true,
                },
            },
    {
        let cs = json::str_chars(s);
        let v = cs.as_slice();
        let n = v.len();
        proof {
            reveal_strlit("{\"status\":");
            assert("{\"status\":"@ =~= seq!['{'] + key_lit(status_key()));
            assert(v@.skip(0) =~= v@);
        }
        if !expect(v, 0, "{\"status\":") {
            proof {
                let head = seq!['{'] + key_lit(status_key());
                if starts_with(v@, head) {
                    assert(v@.subrange(0, 10) =~= v@.subrange(0, head.len() as int));
                }
            }
            return None;
        }
        proof {
            assert(v@.subrange(0, 10) =~= v@.skip(0).subrange(0, 10));
            assert(starts_with(v@, seq!['{'] + key_lit(status_key())));
        }
        let (status, i2) = match parse_string(v, 10) {
            Some(p) => p,
            None => {
                return None;
            },
        };
        proof {
            reveal_strlit(",\"device\":");
            assert(",\"device\":"@ =~= seq![','] + key_lit(device_key()));
            reveal_strlit(",\"status_message\":");
            assert(",\"status_message\":"@ =~= seq![','] + key_lit(msg_key()));
        }
        let (device_opt, i3) = match rpc::parse_opt_field(v, i2, ",\"device\":", Ghost(
            device_key(),
        )) {
            Some(p) => p,
            None => {
                return None;
            },
        };
        let device = match device_opt {
            Some(d) => d,
            None => {
                return None;
            },
        };
        let (msg, i4) = match rpc::parse_opt_field(v, i3, ",\"status_message\":", Ghost(
            msg_key(),
        )) {
            Some(p) => p,
            None => {
                return None;
            },
        };
        proof {
            reveal_strlit(",\"payload\":null}");
            assert(",\"payload\":null}"@ =~= seq![','] + key_lit(payload_key()) + null_lit()
                + seq!['}']);
        }
        if !expect(v, i4, ",\"payload\":null}") {
            proof {
                let tail_lit = seq![','] + key_lit(payload_key()) + null_lit() + seq!['}'];
                if starts_with(v@.skip(i4 as int), tail_lit) {
                    assert(v@.subrange(i4 as int, i4 + tail_lit.len()) =~= v@.skip(
                        i4 as int,
                    ).subrange(0, tail_lit.len() as int));
                }
            }
            return None;
        }
        proof {
            let tail_lit = seq![','] + key_lit(payload_key()) + null_lit() + seq!['}'];
            assert(v@.skip(i4 as int).subrange(0, tail_lit.len() as int) =~= v@.subrange(
                i4 as int,
                i4 + tail_lit.len(),
            ));
            assert(starts_with(v@.skip(i4 as int), tail_lit));
            assert(v@.skip(i4 as int).skip(tail_lit.len() as int) =~= v@.skip(i4 + 16));
        }
        let i5 = i4 + 16;
        if i5 != n {
            return None;
        }
        proof {
            assert(v@.skip(i5 as int).len() == 0);
        }
        Some(Response { status, device, status_message: msg, payload: None })
    }
}

/// Law: serializing a response without a payload and parsing it back yields
/// the same status, device and message. A response that carries a device
/// snapshot is written but not read back: a client checks its fields in
/// serialized form.
pub proof fn lemma_response_round_trip(
    status: Seq<char>,
    device: Seq<char>,
    msg: Option<Seq<char>>,
    rest: Seq<char>,
)
    ensures
        spec_parse_response(spec_ser_response(status, device, msg, None) + rest) == Some(
            ((status, device, msg), rest),
        ),
{
    let d = spec_ser_response(status, device, msg, None) + rest;
    let head = seq!['{'] + key_lit(status_key());
    let tail_lit = seq![','] + key_lit(payload_key()) + null_lit() + seq!['}'];
    let tail1 = ser_str_field(msg_key(), msg, seq![','] + key_lit(payload_key()) + payload_json(
        None,
    ) + seq!['}']);
    let tail0 = ser_str_field(device_key(), Some(device), tail1);
    assert(d.subrange(0, head.len() as int) =~= head);
    assert(d.skip(head.len() as int) =~= json_string(status) + (tail0 + rest));
    json::lemma_string_round_trip(status, tail0 + rest);
    rpc::lemma_field_step(device_key(), Some(device), tail1, rest);
    let tail2 = seq![','] + key_lit(payload_key()) + payload_json(None) + seq!['}'];
    rpc::lemma_field_step(msg_key(), msg, tail2, rest);
    let d4 = tail2 + rest;
    assert(d4.subrange(0, tail_lit.len() as int) =~= tail_lit);
    assert(starts_with(d4, tail_lit));
    assert(d4.skip(tail_lit.len() as int) =~= rest);
}

} // verus!
