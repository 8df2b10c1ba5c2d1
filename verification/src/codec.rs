//! Framing of the binary device protocol: every message travels as
//! `BOM, header(2), id, payload, crc(2), EOM`, where the header's low ten
//! bits give the length of `id ++ payload ++ crc` and the CRC-16 digest is
//! computed over `id ++ payload`.

use vstd::prelude::*;

use crate::crc::{crc16, crc_of};

verus! {

/// First byte of every frame.
pub const BOM: u8 = 253;

/// Last byte of every frame.
pub const EOM: u8 = 221;

/// One decoded protocol message: its semantic id and its payload bytes.
pub struct Frame {
    pub id: u8,
    pub payload: Vec<u8>,
}

/// The length that the frame's header declares for `id ++ payload ++ crc`:
/// the low ten bits of the little-endian header word.
pub open spec fn declared_len(data: Seq<u8>) -> int {
    data[1] as int + 256 * ((data[2] as int) % 4)
}

/// A frame is structurally sound when its marker bytes are in place and the
/// declared length matches the bytes that are actually there.
pub open spec fn structural_ok(data: Seq<u8>) -> bool {
    &&& data.len() >= 7
    &&& data[0] == BOM
    &&& data[data.len() - 1] == EOM
    &&& declared_len(data) == data.len() - 4
}

/// The bytes the frame's CRC is computed over: `id ++ payload`.
pub open spec fn frame_body(data: Seq<u8>) -> Seq<u8> {
    data.subrange(3, data.len() - 3)
}

/// The payload bytes of the frame.
pub open spec fn frame_payload(data: Seq<u8>) -> Seq<u8> {
    data.subrange(4, data.len() - 3)
}

/// The CRC that the frame itself declares, stored little-endian just
/// before the closing marker.
pub open spec fn declared_crc(data: Seq<u8>) -> int {
    data[data.len() - 3] as int + 256 * (data[data.len() - 2] as int)
}

/// What decoding a buffer yields: a message id and payload exactly when the
/// frame is structurally sound and its declared CRC equals the digest
/// recomputed over `id ++ payload`.
pub open spec fn spec_decode(data: Seq<u8>) -> Option<(u8, Seq<u8>)> {
    if structural_ok(data) && declared_crc(data) == crc_of(frame_body(data)) as int {
        Some((data[3], frame_payload(data)))
    } else {
        None
    }
}

/// The encoding of a message as one frame.
pub open spec fn spec_encode(id: u8, payload: Seq<u8>, response: bool) -> Seq<u8> {
    let n = payload.len() + 3;
    let crc = crc_of(seq![id] + payload);
    seq![
        BOM,
        (n % 256) as u8,
        ((n / 256) + if response { 16int } else { 0int }) as u8,
        id,
    ] + payload + seq![(crc as int % 256) as u8, (crc as int / 256) as u8, EOM]
}

/// Frame a buffer freshly read from the stream into zero or one message.
/// Yields `None` exactly when the buffer is structurally unsound or its
/// declared checksum differs from the recomputed one.
pub fn decode_frame(data: &[u8]) -> (r: Option<Frame>)
    ensures
        match r {
            Some(frame) => {
                &&& spec_decode(data@) == Some((frame.id, frame.payload@))
                &&& frame.id == data@[3]
                &&& frame.payload@ == frame_payload(data@)
            },
            None => spec_decode(data@) is None,
        },
{
    let len = data.len();
    if len < 7 {
        return None;
    }
    if data[0] != BOM || data[len - 1] != EOM {
        return None;
    }
    let declared: usize = data[1] as usize + 256 * ((data[2] as usize) % 4);
    if declared != len - 4 {
        return None;
    }

    let mut body: Vec<u8> = Vec::new();
    let mut i: usize = 3;
    while i < len - 3
        invariant
            3 <= i <= len - 3,
            7 <= len == data@.len(),
            body@ == data@.subrange(3, i as int),
        decreases len - 3 - i,
    {
        body.push(data[i]);
        i += 1;
        proof {
            assert(body@ == data@.subrange(3, i as int));
        }
    }
    assert(body@ == frame_body(data@));

    let computed = crc16(&body);
    let stored: u32 = data[len - 3] as u32 + 256 * (data[len - 2] as u32);
    if stored != computed as u32 {
        return None;
    }

    let id = data[3];
    let mut payload: Vec<u8> = Vec::new();
    let mut j: usize = 4;
    while j < len - 3
        invariant
            4 <= j <= len - 3,
            7 <= len == data@.len(),
            payload@ == data@.subrange(4, j as int),
        decreases len - 3 - j,
    {
        payload.push(data[j]);
        j += 1;
        proof {
            assert(payload@ == data@.subrange(4, j as int));
        }
    }
    assert(payload@ == frame_payload(data@));

    Some(Frame { id, payload })
}

/// Whether the buffer is even the shape of a frame, checksum aside.
pub fn frame_structurally_valid(data: &[u8]) -> (r: bool)
    ensures
        r == structural_ok(data@),
{
    let len = data.len();
    if len < 7 {
        return false;
    }
    if data[0] != BOM || data[len - 1] != EOM {
        return false;
    }
    let declared: usize = data[1] as usize + 256 * ((data[2] as usize) % 4);
    declared == len - 4
}

/// Build the frame that carries one outbound message.
pub fn encode_message(id: u8, payload: &Vec<u8>, response: bool) -> (r: Vec<u8>)
    requires
        payload@.len() <= 1020,
    ensures
        r@ == spec_encode(id, payload@, response),
{
    let n: usize = payload.len() + 3;

    let mut body: Vec<u8> = Vec::new();
    body.push(id);
    let mut i: usize = 0;
    while i < payload.len()
        invariant
            i <= payload@.len(),
            body@ == seq![id] + payload@.subrange(0, i as int),
        decreases payload@.len() - i,
    {
        body.push(payload[i]);
        i += 1;
        proof {
            assert(body@ == seq![id] + payload@.subrange(0, i as int));
        }
    }
    assert(payload@.subrange(0, payload@.len() as int) == payload@);
    let crc = crc16(&body);

    let mut out: Vec<u8> = Vec::new();
    out.push(BOM);
    out.push((n % 256) as u8);
    out.push((n / 256 + if response { 16 } else { 0 }) as u8);
    out.push(id);
    let mut j: usize = 0;
    while j < payload.len()
        invariant
            j <= payload@.len(),
            out@ == seq![
                BOM,
                ((payload@.len() + 3) % 256) as u8,
                ((payload@.len() + 3) / 256 + if response { 16int } else { 0int }) as u8,
                id,
            ] + payload@.subrange(0, j as int),
        decreases payload@.len() - j,
    {
        out.push(payload[j]);
        j += 1;
        proof {
            assert(out@.subrange(4, out@.len() as int) == payload@.subrange(0, j as int));
        }
    }
    out.push((crc % 256) as u8);
    out.push((crc as u32 / 256) as u8);
    out.push(EOM);
    proof {
        assert(out@ =~= spec_encode(id, payload@, response));
    }
    out
}

/// Law: decoding the encoding of any message gives the message back.
/// Encoded frames are structurally sound and carry a matching CRC, so the
/// decoder accepts them and recovers the same id and payload.
pub proof fn lemma_encode_decode(id: u8, payload: Seq<u8>, response: bool)
    requires
        payload.len() <= 1020,
    ensures
        spec_decode(spec_encode(id, payload, response)) == Some((id, payload)),
{
    let data = spec_encode(id, payload, response);
    let n = payload.len() + 3;
    assert(data.len() == payload.len() + 7);
    assert(data[0] == BOM);
    assert(data[data.len() - 1] == EOM);

    // The declared length recovers n from its two header bytes.
    assert(n / 256 <= 3) by {
        assert(n <= 1023);
    };
    let hi = (n / 256) + if response { 16int } else { 0int };
    assert(data[1] == (n % 256) as u8);
    assert(data[2] == hi as u8);
    assert((hi as u8) as int % 4 == n / 256) by {
        assert(n / 256 < 4);
        assert(hi == n / 256 || hi == n / 256 + 16);
    };
    assert(declared_len(data) == (n % 256) + 256 * (n / 256));
    assert((n % 256) + 256 * (n / 256) == n) by {
        vstd::arithmetic::div_mod::lemma_fundamental_div_mod(n as int, 256);
    };
    assert(declared_len(data) == data.len() - 4);
    assert(structural_ok(data));

    let crc = crc_of(seq![id] + payload);
    assert(frame_body(data) =~= seq![id] + payload);
    assert(data[data.len() - 3] == (crc as int % 256) as u8);
    assert(data[data.len() - 2] == (crc as int / 256) as u8);
    assert(declared_crc(data) == (crc as int % 256) + 256 * (crc as int / 256));
    assert((crc as int % 256) + 256 * (crc as int / 256) == crc as int) by {
        vstd::arithmetic::div_mod::lemma_fundamental_div_mod(crc as int, 256);
    };
    assert(data[3] == id);
    assert(frame_payload(data) =~= payload);
}

} // verus!
