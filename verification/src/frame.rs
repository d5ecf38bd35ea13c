//! gRPC message framing, shared by the gRPC-Web and the native HTTP/2 path.
//!
//! Every gRPC message travels length-prefixed: one flag byte (a set high bit
//! marks a gRPC-Web trailer frame), the payload length as four big-endian
//! bytes, then the payload.  The encoder builds one frame; the decoder walks
//! a buffer frame by frame and never reads past a truncated one.

use vstd::prelude::*;
use vstd::arithmetic::div_mod::{lemma_div_denominator, lemma_fundamental_div_mod};

verus! {

/// The flag byte of a plain, uncompressed data frame.
pub const DATA_FRAME: u8 = 0x00;

/// The flag bit that marks a gRPC-Web trailer frame.
pub const TRAILER_BIT: u8 = 0x80;

/// The four big-endian bytes of a 32-bit length.
pub open spec fn spec_u32_be(n: u32) -> Seq<u8> {
    seq![
        (n / 0x1000000) as u8,
        ((n / 0x10000) % 0x100) as u8,
        ((n / 0x100) % 0x100) as u8,
        (n % 0x100) as u8,
    ]
}

/// The number that four big-endian bytes denote.
pub open spec fn spec_be_value(b: Seq<u8>) -> nat
    recommends
        b.len() == 4,
{
    (b[0] as nat) * 0x1000000 + (b[1] as nat) * 0x10000 + (b[2] as nat) * 0x100 + (b[3] as nat)
}

/// A whole frame: flag byte, big-endian length, payload.
pub open spec fn spec_frame(flag: u8, payload: Seq<u8>) -> Seq<u8>
    recommends
        payload.len() <= u32::MAX,
{
    seq![flag] + spec_u32_be(payload.len() as u32) + payload
}

/// Four big-endian bytes read back as the number they were made from.
pub proof fn lemma_u32_be_value(n: u32)
    ensures
        spec_be_value(spec_u32_be(n)) == n,
{
    let x = n as int;
    lemma_fundamental_div_mod(x, 0x100);
    lemma_fundamental_div_mod(x / 0x100, 0x100);
    lemma_fundamental_div_mod(x / 0x10000, 0x100);
    lemma_div_denominator(x, 0x100, 0x100);
    lemma_div_denominator(x, 0x10000, 0x100);
    assert(x / 0x1000000 < 0x100) by (nonlinear_arith)
        requires
            0 <= x < 0x100000000,
    ;
}

/// Prefix `payload` with its gRPC frame header.
pub fn encode_frame(flag: u8, payload: &Vec<u8>) -> (r: Vec<u8>)
    requires
        payload@.len() <= u32::MAX,
    ensures
        r@ == spec_frame(flag, payload@),
{
    let len: u32 = payload.len() as u32;
    let mut out: Vec<u8> = Vec::new();
    out.push(flag);
    out.push((len / 0x1000000) as u8);
    out.push(((len / 0x10000) % 0x100) as u8);
    out.push(((len / 0x100) % 0x100) as u8);
    out.push((len % 0x100) as u8);
    proof {
        assert(out@ =~= seq![flag] + spec_u32_be(len));
    }
    out.extend_from_slice(payload.as_slice());
    proof {
        assert(out@ =~= spec_frame(flag, payload@));
    }
    out
}

/// One decoded frame: its flag byte, its payload, and the offset at which
/// the next frame starts.
pub struct DecodedFrame {
    pub flag: u8,
    pub payload: Vec<u8>,
    pub next: usize,
}

/// A whole frame lies at `start`: the header fits, and so does the payload
/// length the header announces.
pub open spec fn spec_frame_at(buf: Seq<u8>, start: int) -> bool {
    &&& start + 5 <= buf.len()
    &&& start + 5 + spec_be_value(buf.subrange(start + 1, start + 5)) <= buf.len()
}

/// Decode the frame that starts at `start`; a buffer that ends before the
/// frame does yields nothing rather than a short read.
pub fn decode_frame(buf: &Vec<u8>, start: usize) -> (r: Option<DecodedFrame>)
    ensures
        r is Some <==> spec_frame_at(buf@, start as int),
        r matches Some(f) ==> {
            let len = spec_be_value(buf@.subrange(start + 1, start + 5));
            &&& f.flag == buf@[start as int]
            &&& f.payload@ == buf@.subrange(start + 5, start + 5 + len)
            &&& f.next == start + 5 + len
        },
{
    if start > buf.len() || buf.len() - start < 5 {
        return None;
    }
    let flag = buf[start];
    let len64: u64 = (buf[start + 1] as u64) * 0x1000000 + (buf[start + 2] as u64) * 0x10000 + (
    buf[start + 3] as u64) * 0x100 + (buf[start + 4] as u64);
    proof {
        assert(len64 == spec_be_value(buf@.subrange(start + 1, start + 5)));
    }
    let rem: u64 = (buf.len() - (start + 5)) as u64;
    if len64 > rem {
        return None;
    }
    let len: usize = len64 as usize;
    let mut payload: Vec<u8> = Vec::new();
    let mut i: usize = 0;
    while i < len
        invariant
            i <= len,
            buf@.len() <= usize::MAX,
            start + 5 + len <= buf@.len(),
            len == spec_be_value(buf@.subrange(start + 1, start + 5)),
            payload@ == buf@.subrange(start + 5, start + 5 + i),
        decreases len - i,
    {
        payload.push(buf[start + 5 + i]);
        proof {
            assert(buf@.subrange(start + 5, start + 5 + i + 1) =~= buf@.subrange(
                start + 5,
                start + 5 + i,
            ).push(buf@[start + 5 + i]));
        }
        i += 1;
    }
    Some(DecodedFrame { flag, payload, next: start + 5 + len })
}

/// Decoding at the head of an encoded frame recovers exactly the flag and
/// payload that went in, wherever the buffer continues afterwards.
pub proof fn lemma_frame_round_trip(flag: u8, payload: Seq<u8>, rest: Seq<u8>)
    requires
        payload.len() <= u32::MAX,
    ensures
        ({
            let buf = spec_frame(flag, payload) + rest;
            &&& spec_frame_at(buf, 0)
            &&& buf[0] == flag
            &&& spec_be_value(buf.subrange(1, 5)) == payload.len()
            &&& buf.subrange(5, 5 + payload.len() as int) == payload
        }),
{
    let buf = spec_frame(flag, payload) + rest;
    lemma_u32_be_value(payload.len() as u32);
    assert(buf.subrange(1, 5) =~= spec_u32_be(payload.len() as u32));
    assert(buf.subrange(5, 5 + payload.len() as int) =~= payload);
}

} // verus!
