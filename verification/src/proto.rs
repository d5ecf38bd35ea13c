//! The protobuf wire form of the one upstream request.
//!
//! The nearest-station request message has three fields: latitude (field 1,
//! a double), longitude (field 2, a double) and the optional result limit
//! (field 3, a uint32).  A double travels as its eight IEEE-754 bytes,
//! little-endian, under wire type 1; the limit travels as a base-128 varint
//! under wire type 0; each field is preceded by its one-byte key,
//! `field_number << 3 | wire_type`.

use vstd::prelude::*;
use crate::handler::{spec_planned_request, NearbyRequest};
use crate::station::Params;

verus! {

/// The key byte of the latitude field: field 1, 64-bit wire type.
pub const LATITUDE_KEY: u8 = 0x09;

/// The key byte of the longitude field: field 2, 64-bit wire type.
pub const LONGITUDE_KEY: u8 = 0x11;

/// The key byte of the limit field: field 3, varint wire type.
pub const LIMIT_KEY: u8 = 0x18;

/// The base-128 varint encoding: seven bits per byte, least significant
/// group first, a set high bit announcing another byte.
pub open spec fn spec_varint(n: nat) -> Seq<u8>
    decreases n,
{
    if n < 0x80 {
        seq![n as u8]
    } else {
        seq![(0x80 + n % 0x80) as u8] + spec_varint(n / 0x80)
    }
}

/// A well-formed varint: at least one byte, continuation bits set on every
/// byte but the last.
pub open spec fn spec_is_varint(b: Seq<u8>) -> bool {
    &&& b.len() > 0
    &&& b.last() < 0x80
    &&& forall|i: int| 0 <= i < b.len() - 1 ==> #[trigger] b[i] >= 0x80
}

/// The number a varint denotes: seven bits per byte, least significant
/// group first.
pub open spec fn spec_varint_value(b: Seq<u8>) -> nat
    decreases b.len(),
{
    if b.len() == 0 {
        0
    } else {
        (b[0] as nat) % 0x80 + 0x80 * spec_varint_value(b.skip(1))
    }
}

/// Every encoded varint is well formed and reads back as the number that
/// went in.
pub proof fn lemma_varint_round_trip(n: nat)
    ensures
        spec_is_varint(spec_varint(n)),
        spec_varint_value(spec_varint(n)) == n,
    decreases n,
{
    let b = spec_varint(n);
    if n < 0x80 {
        assert(b.skip(1) =~= Seq::<u8>::empty());
        assert(spec_varint_value(b.skip(1)) == 0);
    } else {
        lemma_varint_round_trip(n / 0x80);
        let tail = spec_varint(n / 0x80);
        assert(b.skip(1) =~= tail);
        assert(b.last() == tail.last());
        assert(forall|i: int| 1 <= i < b.len() - 1 ==> #[trigger] b[i] == tail[i - 1]);
        assert(spec_varint_value(b) == (0x80 + n % 0x80) % 0x80 + 0x80 * (n / 0x80));
        assert((0x80 + n % 0x80) % 0x80 == n % 0x80) by (nonlinear_arith);
    }
}

/// The eight little-endian bytes of a 64-bit value.
pub open spec fn spec_u64_le(n: u64) -> Seq<u8> {
    seq![
        (n % 0x100) as u8,
        ((n / 0x100) % 0x100) as u8,
        ((n / 0x10000) % 0x100) as u8,
        ((n / 0x1000000) % 0x100) as u8,
        ((n / 0x100000000) % 0x100) as u8,
        ((n / 0x10000000000) % 0x100) as u8,
        ((n / 0x1000000000000) % 0x100) as u8,
        (n / 0x100000000000000) as u8,
    ]
}

/// The encoded request: latitude, longitude, then the limit if one is set.
pub open spec fn spec_request_bytes(r: NearbyRequest) -> Seq<u8> {
    seq![LATITUDE_KEY] + spec_u64_le(r.latitude_bits) + seq![LONGITUDE_KEY] + spec_u64_le(
        r.longitude_bits,
    ) + match r.limit {
        Option::Some(l) => seq![LIMIT_KEY] + spec_varint(l as nat),
        Option::None => Seq::empty(),
    }
}

/// Append the eight little-endian bytes of `n`.
fn push_u64_le(out: &mut Vec<u8>, n: u64)
    ensures
        final(out)@ == old(out)@ + spec_u64_le(n),
{
    out.push((n % 0x100) as u8);
    out.push(((n / 0x100) % 0x100) as u8);
    out.push(((n / 0x10000) % 0x100) as u8);
    out.push(((n / 0x1000000) % 0x100) as u8);
    out.push(((n / 0x100000000) % 0x100) as u8);
    out.push(((n / 0x10000000000) % 0x100) as u8);
    out.push(((n / 0x1000000000000) % 0x100) as u8);
    out.push((n / 0x100000000000000) as u8);
    proof {
        assert(out@ =~= old(out)@ + spec_u64_le(n));
    }
}

/// Append the varint form of `n`.
fn push_varint(out: &mut Vec<u8>, n: u32)
    ensures
        final(out)@ == old(out)@ + spec_varint(n as nat),
{
    let mut m: u32 = n;
    while m >= 0x80
        invariant
            old(out)@ + spec_varint(n as nat) =~= out@ + spec_varint(m as nat),
        decreases m,
    {
        let b: u8 = (m % 0x80 + 0x80) as u8;
        proof {
            assert(spec_varint(m as nat) == seq![(0x80 + (m as nat) % 0x80) as u8] + spec_varint(
                (m as nat) / 0x80,
            ));
            assert((0x80 + (m as nat) % 0x80) as u8 == b);
            assert((out@ + seq![b]) + spec_varint((m / 0x80) as nat) =~= out@ + spec_varint(
                m as nat,
            ));
        }
        out.push(b);
        m = m / 0x80;
    }
    out.push(m as u8);
    proof {
        assert(out@ =~= old(out)@ + spec_varint(n as nat));
    }
}

/// On the wire, the request planned for any complete query carries its two
/// coordinates verbatim and ends with the limit field holding exactly one.
pub proof fn lemma_planned_request_wire(p: Params)
    requires
        p.latitude_bits is Some,
        p.longitude_bits is Some,
    ensures
        spec_request_bytes(spec_planned_request(p)) == seq![LATITUDE_KEY] + spec_u64_le(
            p.latitude_bits->0,
        ) + seq![LONGITUDE_KEY] + spec_u64_le(p.longitude_bits->0) + seq![LIMIT_KEY, 1u8],
{
    assert(spec_varint(1) =~= seq![1u8]);
    assert(seq![LIMIT_KEY] + spec_varint(1) =~= seq![LIMIT_KEY, 1u8]);
}

/// Encode the upstream request in protobuf wire form.
pub fn encode_nearby_request(r: &NearbyRequest) -> (out: Vec<u8>)
    ensures
        out@ == spec_request_bytes(*r),
{
    let mut out: Vec<u8> = Vec::new();
    out.push(LATITUDE_KEY);
    push_u64_le(&mut out, r.latitude_bits);
    out.push(LONGITUDE_KEY);
    push_u64_le(&mut out, r.longitude_bits);
    match r.limit {
        Option::Some(l) => {
            out.push(LIMIT_KEY);
            push_varint(&mut out, l);
        },
        Option::None => {},
    }
    proof {
        assert(out@ =~= spec_request_bytes(*r));
    }
    out
}

} // verus!
