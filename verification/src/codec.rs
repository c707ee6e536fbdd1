//! The wire format of the persisted state record.
//!
//! The record is laid out as four little-endian bytes holding the counter,
//! followed by the owner's identity bytes. The counter is stored with a
//! bias of 2^31 so that its byte form is an unsigned number; decoding
//! removes the bias again. Decoding fails exactly when fewer than four
//! bytes are present.

use vstd::prelude::*;

use crate::state::{State, StateView};

verus! {

/// The counter value shifted into the unsigned range.
pub open spec fn spec_bias(c: i32) -> u32 {
    (c + 0x8000_0000) as u32
}

/// The inverse of [`spec_bias`].
pub open spec fn spec_unbias(u: u32) -> i32 {
    (u - 0x8000_0000) as i32
}

pub proof fn lemma_bias_round_trip(c: i32)
    ensures
        spec_unbias(spec_bias(c)) == c,
{
    assert(spec_unbias(spec_bias(c)) == c) by (bit_vector);
}

/// The four little-endian bytes of a 32-bit value.
pub open spec fn spec_u32_le(x: u32) -> Seq<u8> {
    seq![
        (x & 0xff) as u8,
        ((x >> 8) & 0xff) as u8,
        ((x >> 16) & 0xff) as u8,
        ((x >> 24) & 0xff) as u8,
    ]
}

/// The 32-bit value held by four little-endian bytes.
pub open spec fn spec_le_value(b: Seq<u8>) -> u32 {
    ((b[0] as u32) | ((b[1] as u32) << 8) | ((b[2] as u32) << 16) | ((b[3] as u32) << 24)) as u32
}

pub proof fn lemma_u32_le_round_trip(x: u32)
    ensures
        spec_le_value(spec_u32_le(x)) == x,
{
    assert((((x & 0xff) as u8 as u32) | ((((x >> 8) & 0xff) as u8 as u32) << 8) | ((((x >> 16)
        & 0xff) as u8 as u32) << 16) | ((((x >> 24) & 0xff) as u8 as u32) << 24)) as u32
        == x) by (bit_vector);
}

/// Writes the four little-endian bytes of `x` onto the end of `out`.
fn push_u32_le(out: &mut Vec<u8>, x: u32)
    ensures
        final(out)@ == old(out)@ + spec_u32_le(x),
{
    proof {
        assert((x & 0xff) < 256 && ((x >> 8) & 0xff) < 256 && ((x >> 16) & 0xff) < 256 && ((x
            >> 24) & 0xff) < 256) by (bit_vector);
    }
    out.push((x & 0xff) as u8);
    out.push(((x >> 8) & 0xff) as u8);
    out.push(((x >> 16) & 0xff) as u8);
    out.push(((x >> 24) & 0xff) as u8);
    proof {
        assert(out@ =~= old(out)@ + spec_u32_le(x));
    }
}

/// Reads the 32-bit value held little-endian at `b[at..at + 4]`.
fn read_u32_le(b: &Vec<u8>, at: usize) -> (x: u32)
    requires
        at + 4 <= b@.len(),
    ensures
        x == spec_le_value(b@.subrange(at as int, at as int + 4)),
{
    proof {
        assert(b.len() >= at + 4);
    }
    let b0 = b[at];
    let b1 = b[at + 1];
    let b2 = b[at + 2];
    let b3 = b[at + 3];
    proof {
        assert(((b1 as u32) << 8) < 0x1_0000 && ((b2 as u32) << 16) < 0x100_0000 && ((b3 as u32)
            << 24) <= 0xff00_0000) by (bit_vector);
    }
    let x: u32 = (b0 as u32) | ((b1 as u32) << 8) | ((b2 as u32) << 16) | ((b3 as u32) << 24);
    proof {
        let s = b@.subrange(at as int, at as int + 4);
        assert(s[0] == b0 && s[1] == b1 && s[2] == b2 && s[3] == b3);
    }
    x
}

/// The biased counter written as four bytes.
pub open spec fn spec_encode_count(c: i32) -> Seq<u8> {
    spec_u32_le(spec_bias(c))
}

/// The counter read back from four bytes.
pub open spec fn spec_decode_count(b: Seq<u8>) -> i32 {
    spec_unbias(spec_le_value(b))
}

pub proof fn lemma_count_round_trip(c: i32)
    ensures
        spec_decode_count(spec_encode_count(c)) == c,
{
    lemma_u32_le_round_trip(spec_bias(c));
    lemma_bias_round_trip(c);
}

pub proof fn lemma_u32_le_canonical(b: Seq<u8>)
    requires
        b.len() == 4,
    ensures
        spec_u32_le(spec_le_value(b)) == b,
{
    let b0 = b[0];
    let b1 = b[1];
    let b2 = b[2];
    let b3 = b[3];
    let x = ((b0 as u32) | ((b1 as u32) << 8) | ((b2 as u32) << 16) | ((b3 as u32) << 24)) as u32;
    assert((x & 0xff) as u8 == b0 && ((x >> 8) & 0xff) as u8 == b1 && ((x >> 16) & 0xff) as u8
        == b2 && ((x >> 24) & 0xff) as u8 == b3) by (bit_vector)
        requires
            x == ((b0 as u32) | ((b1 as u32) << 8) | ((b2 as u32) << 16) | ((b3 as u32)
                << 24)) as u32,
    ;
    assert(spec_u32_le(spec_le_value(b)) =~= b);
}

/// Every four-byte string is the encoding of the counter it decodes to:
/// the counter codec is a bijection on four-byte strings.
pub proof fn lemma_count_canonical(b: Seq<u8>)
    requires
        b.len() == 4,
    ensures
        spec_encode_count(spec_decode_count(b)) == b,
{
    let u = spec_le_value(b);
    assert(spec_bias(spec_unbias(u)) == u) by (bit_vector);
    lemma_u32_le_canonical(b);
}

/// Appends the four counter bytes of `c` to `out`.
pub(crate) fn push_count(out: &mut Vec<u8>, c: i32)
    ensures
        final(out)@ == old(out)@ + spec_encode_count(c),
{
    let biased: u32 = ((c as i64) + 0x8000_0000i64) as u32;
    proof {
        assert(((c as i64) + 0x8000_0000i64) as u32 == spec_bias(c)) by (bit_vector);
    }
    push_u32_le(out, biased);
}

/// Reads the counter held at `b[at..at + 4]`.
pub(crate) fn read_count(b: &Vec<u8>, at: usize) -> (c: i32)
    requires
        at + 4 <= b@.len(),
    ensures
        c == spec_decode_count(b@.subrange(at as int, at as int + 4)),
{
    let u = read_u32_le(b, at);
    let c: i32 = ((u as i64) - 0x8000_0000i64) as i32;
    proof {
        assert(((u as i64) - 0x8000_0000i64) as i32 == spec_unbias(u)) by (bit_vector);
    }
    c
}

/// The byte form of a state record: four counter bytes, then the owner.
pub open spec fn spec_encode_state(count: i32, owner: Seq<u8>) -> Seq<u8> {
    spec_encode_count(count) + owner
}

/// The state record read back from its byte form; `None` exactly when
/// fewer than four bytes are present.
pub open spec fn spec_decode_state(b: Seq<u8>) -> Option<StateView> {
    if b.len() >= 4 {
        Some(
            (StateView {
                count: spec_decode_count(b.subrange(0, 4)),
                owner: b.subrange(4, b.len() as int),
            }),
        )
    } else {
        None
    }
}

pub proof fn lemma_state_round_trip(count: i32, owner: Seq<u8>)
    ensures
        spec_decode_state(spec_encode_state(count, owner)) matches Some(st) && st.count == count
            && st.owner == owner,
{
    let b = spec_encode_state(count, owner);
    assert(b.subrange(0, 4) =~= spec_encode_count(count));
    assert(b.subrange(4, b.len() as int) =~= owner);
    lemma_count_round_trip(count);
}

/// Every byte string a state record decodes from is the one its fields
/// encode back to: decoding accepts only well-formed records.
pub proof fn lemma_state_canonical(b: Seq<u8>)
    requires
        spec_decode_state(b) is Some,
    ensures
        spec_decode_state(b) matches Some(st) && spec_encode_state(st.count, st.owner) == b,
{
    lemma_count_canonical(b.subrange(0, 4));
    let st = spec_decode_state(b)->Some_0;
    assert(spec_encode_state(st.count, st.owner) =~= b);
}

/// Serializes a state record.
pub fn encode_state(state: &State) -> (r: Vec<u8>)
    ensures
        r@ == spec_encode_state(state.count, state.owner@),
{
    let mut out: Vec<u8> = Vec::new();
    push_count(&mut out, state.count);
    crate::bytes::append_bytes(&mut out, &state.owner.bytes);
    out
}

/// Deserializes a state record; fails exactly when the bytes are too short
/// to hold the counter.
pub fn decode_state(b: &Vec<u8>) -> (r: Option<State>)
    ensures
        match spec_decode_state(b@) {
            Some(st) => r matches Some(s) && s@ == st,
            None => r is None,
        },
{
    if b.len() < 4 {
        return None;
    }
    let count = read_count(b, 0);
    let mut owner: Vec<u8> = Vec::new();
    let mut i: usize = 4;
    while i < b.len()
        invariant
            4 <= i <= b@.len(),
            owner@ == b@.subrange(4, i as int),
        decreases b@.len() - i,
    {
        owner.push(b[i]);
        i = i + 1;
        proof {
            assert(owner@ =~= b@.subrange(4, i as int));
        }
    }
    let state = State { count, owner: crate::state::Identity::new(owner) };
    proof {
        assert(owner@ =~= b@.subrange(4, b@.len() as int));
        assert(state@ == spec_decode_state(b@)->Some_0);
    }
    Some(state)
}

} // verus!
