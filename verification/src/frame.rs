//! The on-wire envelope the egress broker sends to the host-side egress
//! forwarder: one length-prefixed frame carrying the chosen destination IP and
//! the captured first application record. Exactly one frame is emitted per
//! connection, before any other bytes; after it the channel is a raw pipe.

use vstd::bytes::{
    lemma_auto_spec_u32_to_from_le_bytes, spec_u32_from_le_bytes, spec_u32_to_le_bytes,
    u32_from_le_bytes, u32_to_le_bytes,
};
use vstd::prelude::*;
use vstd::slice::{slice_subrange, slice_to_vec};

verus! {

/// The egress request frame: `ip` is the chosen destination IP literal,
/// `data` the first application record read from the customer stream.
pub struct ExternalRequest {
    pub ip: Vec<u8>,
    pub data: Vec<u8>,
}

/// The encoded form of a frame: a 4-byte little-endian length prefix before
/// each of the two fields.
pub open spec fn spec_frame(ip: Seq<u8>, data: Seq<u8>) -> Seq<u8> {
    spec_u32_to_le_bytes(ip.len() as u32) + ip + spec_u32_to_le_bytes(data.len() as u32) + data
}

/// Decoding a frame from the front of a buffer: the two fields and the number
/// of bytes consumed, or `None` when the buffer does not hold a whole frame.
pub open spec fn spec_decode_frame(buf: Seq<u8>) -> Option<(Seq<u8>, Seq<u8>, int)> {
    if buf.len() < 4 {
        None
    } else {
        let ip_len = spec_u32_from_le_bytes(buf.subrange(0, 4)) as int;
        if buf.len() < 4 + ip_len + 4 {
            None
        } else {
            let data_len = spec_u32_from_le_bytes(buf.subrange(4 + ip_len, 8 + ip_len)) as int;
            if buf.len() < 8 + ip_len + data_len {
                None
            } else {
                Some(
                    (
                        buf.subrange(4, 4 + ip_len),
                        buf.subrange(8 + ip_len, 8 + ip_len + data_len),
                        8 + ip_len + data_len,
                    ),
                )
            }
        }
    }
}

impl ExternalRequest {
    /// Encode this request as the single frame sent ahead of the spliced bytes.
    pub fn to_bytes(&self) -> (out: Vec<u8>)
        requires
            self.ip@.len() <= u32::MAX,
            self.data@.len() <= u32::MAX,
        ensures
            out@ == spec_frame(self.ip@, self.data@),
    {
        let mut out = u32_to_le_bytes(self.ip.len() as u32);
        out.extend_from_slice(self.ip.as_slice());
        let mut data_len = u32_to_le_bytes(self.data.len() as u32);
        out.append(&mut data_len);
        out.extend_from_slice(self.data.as_slice());
        assert(out@ =~= spec_frame(self.ip@, self.data@));
        out
    }

    /// Decode one frame from the front of `buf`, returning the request and the
    /// number of bytes consumed.
    pub fn from_bytes(buf: &[u8]) -> (r: Option<(ExternalRequest, usize)>)
        ensures
            match r {
                Some((req, used)) => spec_decode_frame(buf@) == Some(
                    (req.ip@, req.data@, used as int),
                ),
                None => spec_decode_frame(buf@) is None,
            },
    {
        if buf.len() < 4 {
            return None;
        }
        let ip_len = u32_from_le_bytes(slice_subrange(buf, 0, 4)) as usize;
        if buf.len() - 4 < ip_len || buf.len() - 4 - ip_len < 4 {
            return None;
        }
        let ip = slice_to_vec(slice_subrange(buf, 4, 4 + ip_len));
        let data_len = u32_from_le_bytes(slice_subrange(buf, 4 + ip_len, 8 + ip_len)) as usize;
        if buf.len() - 8 - ip_len < data_len {
            return None;
        }
        let data = slice_to_vec(slice_subrange(buf, 8 + ip_len, 8 + ip_len + data_len));
        Some((ExternalRequest { ip, data }, 8 + ip_len + data_len))
    }
}

/// An `ExternalRequest` round-trips through the frame encoder and decoder
/// unchanged: decoding the encoding of any `ip` and `data` gives back exactly
/// `ip` and `data`, consuming the whole encoding.
pub proof fn lemma_frame_round_trip(ip: Seq<u8>, data: Seq<u8>)
    requires
        ip.len() <= u32::MAX,
        data.len() <= u32::MAX,
    ensures
        spec_decode_frame(spec_frame(ip, data)) == Some(
            (ip, data, spec_frame(ip, data).len() as int),
        ),
{
    lemma_auto_spec_u32_to_from_le_bytes();
    let buf = spec_frame(ip, data);
    assert(buf.subrange(0, 4) =~= spec_u32_to_le_bytes(ip.len() as u32));
    let ip_len = ip.len() as int;
    assert(buf.subrange(4, 4 + ip_len) =~= ip);
    assert(buf.subrange(4 + ip_len, 8 + ip_len) =~= spec_u32_to_le_bytes(data.len() as u32));
    let data_len = data.len() as int;
    assert(buf.subrange(8 + ip_len, 8 + ip_len + data_len) =~= data);
    assert(buf.len() == 8 + ip_len + data_len);
}

/// The decoder accepts only the encoder's output: whatever buffer decodes to
/// `ip` and `data` begins with exactly their encoding, so both sides of the
/// channel agree on the frame bytes.
pub proof fn lemma_frame_decode_encode(buf: Seq<u8>, ip: Seq<u8>, data: Seq<u8>, used: int)
    requires
        spec_decode_frame(buf) == Some((ip, data, used)),
    ensures
        spec_frame(ip, data) =~= buf.subrange(0, used),
        ip.len() <= u32::MAX,
        data.len() <= u32::MAX,
{
    lemma_auto_spec_u32_to_from_le_bytes();
    let ip_len = spec_u32_from_le_bytes(buf.subrange(0, 4)) as int;
    let data_len = spec_u32_from_le_bytes(buf.subrange(4 + ip_len, 8 + ip_len)) as int;
    assert(spec_u32_to_le_bytes(ip.len() as u32) =~= buf.subrange(0, 4));
    assert(spec_u32_to_le_bytes(data.len() as u32) =~= buf.subrange(4 + ip_len, 8 + ip_len));
}

} // verus!
