//! The transient message types and their wire format.
//!
//! Messages travel as length-prefixed tagged records: one byte holding the
//! tag length, the ASCII tag itself (`increment`, `reset` or `get_count`),
//! then the variant's payload. The instantiate message and the count
//! response are bare four-byte counters. Decoding accepts exactly the
//! encodings this module produces.

use vstd::prelude::*;

use crate::bytes::{append_bytes, tag_matches};
use crate::codec::{push_count, read_count, spec_decode_count, spec_encode_count};

verus! {

/// Supplies the initial counter value.
#[derive(Clone, Copy, Debug, PartialEq, Eq, Structural)]
pub struct InstantiateMsg {
    pub count: i32,
}

/// A state-mutating call, dispatched by tag.
#[derive(Clone, Copy, Debug, PartialEq, Eq, Structural)]
pub enum ExecuteMsg {
    Increment {},
    Reset { count: i32 },
}

/// A read-only call, dispatched by tag.
#[derive(Clone, Copy, Debug, PartialEq, Eq, Structural)]
pub enum QueryMsg {
    GetCount {},
}

/// The response to [`QueryMsg::GetCount`].
#[derive(Clone, Copy, Debug, PartialEq, Eq, Structural)]
pub struct GetCountResponse {
    pub count: i32,
}

/// The tag bytes of an increment message (the bytes of `"increment"`).
pub open spec fn spec_tag_increment() -> Seq<u8> {
    seq![105u8, 110u8, 99u8, 114u8, 101u8, 109u8, 101u8, 110u8, 116u8]
}

/// Builds the tag bytes of an increment message.
pub fn tag_increment() -> (t: Vec<u8>)
    ensures
        t@ == spec_tag_increment(),
{
    let t: Vec<u8> = vec![105u8, 110u8, 99u8, 114u8, 101u8, 109u8, 101u8, 110u8, 116u8];
    proof {
        assert(t@ =~= spec_tag_increment());
    }
    t
}

/// The tag bytes of a reset message (the bytes of `"reset"`).
pub open spec fn spec_tag_reset() -> Seq<u8> {
    seq![114u8, 101u8, 115u8, 101u8, 116u8]
}

/// Builds the tag bytes of a reset message.
pub fn tag_reset() -> (t: Vec<u8>)
    ensures
        t@ == spec_tag_reset(),
{
    let t: Vec<u8> = vec![114u8, 101u8, 115u8, 101u8, 116u8];
    proof {
        assert(t@ =~= spec_tag_reset());
    }
    t
}

/// The tag bytes of a count query (the bytes of `"get_count"`).
pub open spec fn spec_tag_get_count() -> Seq<u8> {
    seq![103u8, 101u8, 116u8, 95u8, 99u8, 111u8, 117u8, 110u8, 116u8]
}

/// Builds the tag bytes of a count query.
pub fn tag_get_count() -> (t: Vec<u8>)
    ensures
        t@ == spec_tag_get_count(),
{
    let t: Vec<u8> = vec![103u8, 101u8, 116u8, 95u8, 99u8, 111u8, 117u8, 110u8, 116u8];
    proof {
        assert(t@ =~= spec_tag_get_count());
    }
    t
}

/// The byte form of an instantiate message: the four counter bytes.
pub open spec fn spec_encode_instantiate(m: InstantiateMsg) -> Seq<u8> {
    spec_encode_count(m.count)
}

/// The instantiate message read back from bytes; `None` unless exactly
/// four bytes are present.
pub open spec fn spec_decode_instantiate(b: Seq<u8>) -> Option<InstantiateMsg> {
    if b.len() == 4 {
        Some((InstantiateMsg { count: spec_decode_count(b) }))
    } else {
        None
    }
}

/// The byte form of an execute message: tag length, tag, then payload.
pub open spec fn spec_encode_execute(m: ExecuteMsg) -> Seq<u8> {
    match m {
        ExecuteMsg::Increment {  } => seq![9u8] + spec_tag_increment(),
        ExecuteMsg::Reset { count } => seq![5u8] + spec_tag_reset() + spec_encode_count(count),
    }
}

/// The execute message read back from bytes; `None` on anything that is
/// not an encoding produced by [`spec_encode_execute`].
pub open spec fn spec_decode_execute(b: Seq<u8>) -> Option<ExecuteMsg> {
    if b.len() == 10 && b[0] == 9u8 && b.subrange(1, 10) == spec_tag_increment() {
        Some((ExecuteMsg::Increment {  }))
    } else if b.len() == 10 && b[0] == 5u8 && b.subrange(1, 6) == spec_tag_reset() {
        Some((ExecuteMsg::Reset { count: spec_decode_count(b.subrange(6, 10)) }))
    } else {
        None
    }
}

/// The byte form of a query message: tag length, then tag.
pub open spec fn spec_encode_query(m: QueryMsg) -> Seq<u8> {
    match m {
        QueryMsg::GetCount {  } => seq![9u8] + spec_tag_get_count(),
    }
}

/// The query message read back from bytes.
pub open spec fn spec_decode_query(b: Seq<u8>) -> Option<QueryMsg> {
    if b.len() == 10 && b[0] == 9u8 && b.subrange(1, 10) == spec_tag_get_count() {
        Some((QueryMsg::GetCount {  }))
    } else {
        None
    }
}

/// The byte form of a count response: the four counter bytes.
pub open spec fn spec_encode_response(c: i32) -> Seq<u8> {
    spec_encode_count(c)
}

/// The count response read back from bytes; `None` unless exactly four
/// bytes are present.
pub open spec fn spec_decode_response(b: Seq<u8>) -> Option<GetCountResponse> {
    if b.len() == 4 {
        Some((GetCountResponse { count: spec_decode_count(b) }))
    } else {
        None
    }
}

/// Serializes an instantiate message.
pub fn encode_instantiate(m: InstantiateMsg) -> (r: Vec<u8>)
    ensures
        r@ == spec_encode_instantiate(m),
{
    let mut out: Vec<u8> = Vec::new();
    push_count(&mut out, m.count);
    proof {
        assert(out@ =~= spec_encode_instantiate(m));
    }
    out
}

/// Deserializes an instantiate message.
pub fn decode_instantiate(b: &Vec<u8>) -> (r: Option<InstantiateMsg>)
    ensures
        r == spec_decode_instantiate(b@),
{
    if b.len() != 4 {
        return None;
    }
    let count = read_count(b, 0);
    proof {
        assert(b@.subrange(0, 4) =~= b@);
    }
    Some(InstantiateMsg { count })
}

pub proof fn lemma_instantiate_round_trip(m: InstantiateMsg)
    ensures
        spec_decode_instantiate(spec_encode_instantiate(m)) == Some(m),
{
    crate::codec::lemma_count_round_trip(m.count);
}

/// Decoding accepts only the byte strings [`spec_encode_instantiate`]
/// produces.
pub proof fn lemma_instantiate_canonical(b: Seq<u8>)
    requires
        spec_decode_instantiate(b) is Some,
    ensures
        spec_decode_instantiate(b) matches Some(m) && spec_encode_instantiate(m) == b,
{
    crate::codec::lemma_count_canonical(b);
}

/// Serializes an execute message.
pub fn encode_execute(m: ExecuteMsg) -> (r: Vec<u8>)
    ensures
        r@ == spec_encode_execute(m),
{
    let mut out: Vec<u8> = Vec::new();
    match m {
        ExecuteMsg::Increment {  } => {
            out.push(9u8);
            append_bytes(&mut out, &tag_increment());
        },
        ExecuteMsg::Reset { count } => {
            out.push(5u8);
            append_bytes(&mut out, &tag_reset());
            push_count(&mut out, count);
        },
    }
    proof {
        assert(out@ =~= spec_encode_execute(m));
    }
    out
}

/// Deserializes an execute message.
pub fn decode_execute(b: &Vec<u8>) -> (r: Option<ExecuteMsg>)
    ensures
        r == spec_decode_execute(b@),
{
    if b.len() != 10 {
        return None;
    }
    let tag_len = b[0];
    if tag_len == 9 {
        if tag_matches(b, 1, &tag_increment()) {
            proof {
                assert(b@.subrange(1, 10) =~= b@.subrange(1int, 1 + spec_tag_increment().len() as int));
            }
            Some(ExecuteMsg::Increment {  })
        } else {
            proof {
                assert(b@.subrange(1, 10) =~= b@.subrange(1int, 1 + spec_tag_increment().len() as int));
            }
            None
        }
    } else if tag_len == 5 {
        if tag_matches(b, 1, &tag_reset()) {
            let count = read_count(b, 6);
            Some(ExecuteMsg::Reset { count })
        } else {
            proof {
                assert(b@.subrange(1, 6) =~= b@.subrange(1int, 1 + spec_tag_reset().len() as int));
            }
            None
        }
    } else {
        None
    }
}

pub proof fn lemma_execute_round_trip(m: ExecuteMsg)
    ensures
        spec_decode_execute(spec_encode_execute(m)) == Some(m),
{
    let b = spec_encode_execute(m);
    match m {
        ExecuteMsg::Increment {  } => {
            assert(b.subrange(1, 10) =~= spec_tag_increment());
        },
        ExecuteMsg::Reset { count } => {
            assert(b.subrange(1, 6) =~= spec_tag_reset());
            assert(b.subrange(1, 10) != spec_tag_increment()) by {
                assert(b.subrange(1, 10)[0] == 114u8);
            };
            assert(b.subrange(6, 10) =~= spec_encode_count(count));
            crate::codec::lemma_count_round_trip(count);
        },
    }
}

/// Serializes a query message.
pub fn encode_query(m: QueryMsg) -> (r: Vec<u8>)
    ensures
        r@ == spec_encode_query(m),
{
    let mut out: Vec<u8> = Vec::new();
    match m {
        QueryMsg::GetCount {  } => {
            out.push(9u8);
            append_bytes(&mut out, &tag_get_count());
        },
    }
    proof {
        assert(out@ =~= spec_encode_query(m));
    }
    out
}

/// Deserializes a query message.
pub fn decode_query(b: &Vec<u8>) -> (r: Option<QueryMsg>)
    ensures
        r == spec_decode_query(b@),
{
    if b.len() != 10 {
        return None;
    }
    if b[0] == 9 && tag_matches(b, 1, &tag_get_count()) {
        proof {
            assert(b@.subrange(1, 10) =~= b@.subrange(1int, 1 + spec_tag_get_count().len() as int));
        }
        Some(QueryMsg::GetCount {  })
    } else {
        proof {
            assert(b@.subrange(1, 10) =~= b@.subrange(1int, 1 + spec_tag_get_count().len() as int));
        }
        None
    }
}

/// Decoding accepts only the byte strings [`spec_encode_execute`]
/// produces.
pub proof fn lemma_execute_canonical(b: Seq<u8>)
    requires
        spec_decode_execute(b) is Some,
    ensures
        spec_decode_execute(b) matches Some(m) && spec_encode_execute(m) == b,
{
    let m = spec_decode_execute(b)->Some_0;
    match m {
        ExecuteMsg::Increment {  } => {
            assert(spec_encode_execute(m) =~= b);
        },
        ExecuteMsg::Reset { .. } => {
            crate::codec::lemma_count_canonical(b.subrange(6, 10));
            assert(spec_encode_execute(m) =~= b);
        },
    }
}

pub proof fn lemma_query_round_trip(m: QueryMsg)
    ensures
        spec_decode_query(spec_encode_query(m)) == Some(m),
{
    let b = spec_encode_query(m);
    assert(b.subrange(1, 10) =~= spec_tag_get_count());
}

/// Decoding accepts only the byte strings [`spec_encode_query`] produces.
pub proof fn lemma_query_canonical(b: Seq<u8>)
    requires
        spec_decode_query(b) is Some,
    ensures
        spec_decode_query(b) matches Some(m) && spec_encode_query(m) == b,
{
    let m = spec_decode_query(b)->Some_0;
    assert(spec_encode_query(m) =~= b);
}

/// Serializes a count response.
pub fn encode_response(resp: &GetCountResponse) -> (r: Vec<u8>)
    ensures
        r@ == spec_encode_response(resp.count),
{
    let mut out: Vec<u8> = Vec::new();
    push_count(&mut out, resp.count);
    proof {
        assert(out@ =~= spec_encode_response(resp.count));
    }
    out
}

/// Deserializes a count response.
pub fn decode_response(b: &Vec<u8>) -> (r: Option<GetCountResponse>)
    ensures
        r == spec_decode_response(b@),
{
    if b.len() != 4 {
        return None;
    }
    let count = read_count(b, 0);
    proof {
        assert(b@.subrange(0, 4) =~= b@);
    }
    Some(GetCountResponse { count })
}

pub proof fn lemma_response_round_trip(c: i32)
    ensures
        spec_decode_response(spec_encode_response(c)) matches Some(resp) && resp.count == c,
{
    crate::codec::lemma_count_round_trip(c);
}

/// Decoding accepts only the byte strings [`spec_encode_response`]
/// produces.
pub proof fn lemma_response_canonical(b: Seq<u8>)
    requires
        spec_decode_response(b) is Some,
    ensures
        spec_decode_response(b) matches Some(resp) && spec_encode_response(resp.count) == b,
{
    crate::codec::lemma_count_canonical(b);
}

} // verus!
