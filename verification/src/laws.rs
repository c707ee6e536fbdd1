//! Proved laws of the contract state machine.
//!
//! Each law is stated over the model functions of [`crate::contract`],
//! which the executable entry points are proved to match, so what is
//! proved here holds of every run of the compiled contract.

use vstd::prelude::*;

use crate::contract::{
    save_to, spec_execute, spec_increment, spec_instantiate, spec_query, spec_reset, state_of,
    ContractError,
};
use crate::msg::ExecuteMsg;
use crate::state::spec_config_key;

verus! {

/// After a record with the given fields is saved, loading finds exactly
/// those fields again.
pub proof fn lemma_state_of_saved(m: Map<Seq<u8>, Seq<u8>>, count: i32, owner: Seq<u8>)
    ensures
        state_of(save_to(m, count, owner)) matches Some(st) && st.count == count && st.owner
            == owner,
{
    crate::codec::lemma_state_round_trip(count, owner);
}

/// Instantiating with counter `count` makes the caller the owner and
/// makes a count query return exactly `count`.
pub proof fn law_instantiate_sets_state(m: Map<Seq<u8>, Seq<u8>>, sender: Seq<u8>, count: i32)
    ensures
        state_of(spec_instantiate(m, sender, count)) matches Some(st) && st.count == count
            && st.owner == sender,
        spec_query(spec_instantiate(m, sender, count)) == Ok::<i32, ContractError>(count),
{
    lemma_state_of_saved(m, count, sender);
}

/// The store after `n` increment calls.
pub open spec fn apply_increments(m: Map<Seq<u8>, Seq<u8>>, n: nat) -> Map<Seq<u8>, Seq<u8>>
    decreases n,
{
    if n == 0 {
        m
    } else {
        spec_increment(apply_increments(m, (n - 1) as nat)).0
    }
}

/// An increment call is independent of the caller's identity.
pub proof fn law_increment_ignores_caller(
    m: Map<Seq<u8>, Seq<u8>>,
    sender_a: Seq<u8>,
    sender_b: Seq<u8>,
)
    ensures
        spec_execute(m, sender_a, (ExecuteMsg::Increment {  })) == spec_execute(
            m,
            sender_b,
            (ExecuteMsg::Increment {  }),
        ),
{
}

/// On an initialized store holding counter `count`, `n` increments leave
/// counter `count + n` and the owner untouched, as long as the counter
/// stays within the signed 32-bit range.
pub proof fn law_repeated_increments(
    m: Map<Seq<u8>, Seq<u8>>,
    count: i32,
    owner: Seq<u8>,
    n: nat,
)
    requires
        state_of(m) matches Some(st) && st.count == count && st.owner == owner,
        count + n <= i32::MAX,
    ensures
        state_of(apply_increments(m, n)) matches Some(st) && st.count == count + n && st.owner
            == owner,
        spec_query(apply_increments(m, n)) == Ok::<i32, ContractError>((count + n) as i32),
    decreases n,
{
    if n > 0 {
        law_repeated_increments(m, count, owner, (n - 1) as nat);
        let prev = apply_increments(m, (n - 1) as nat);
        lemma_state_of_saved(prev, (count + n) as i32, owner);
    }
}

/// Instantiating with `count` and then incrementing `n` times makes a
/// count query return exactly `count + n`, as long as the counter stays
/// within the signed 32-bit range.
pub proof fn law_increments_after_instantiate(
    m: Map<Seq<u8>, Seq<u8>>,
    sender: Seq<u8>,
    count: i32,
    n: nat,
)
    requires
        count + n <= i32::MAX,
    ensures
        spec_query(apply_increments(spec_instantiate(m, sender, count), n)) == Ok::<
            i32,
            ContractError,
        >((count + n) as i32),
{
    law_instantiate_sets_state(m, sender, count);
    law_repeated_increments(spec_instantiate(m, sender, count), count, sender, n);
}

/// A reset issued by the owner succeeds and makes a count query return
/// exactly the requested value; the owner stays the same.
pub proof fn law_reset_by_owner(m: Map<Seq<u8>, Seq<u8>>, owner: Seq<u8>, new_count: i32)
    requires
        state_of(m) matches Some(st) && st.owner == owner,
    ensures
        spec_reset(m, owner, new_count).1 == Ok::<(), ContractError>(()),
        spec_query(spec_reset(m, owner, new_count).0) == Ok::<i32, ContractError>(new_count),
        state_of(spec_reset(m, owner, new_count).0) matches Some(st) && st.count == new_count
            && st.owner == owner,
{
    lemma_state_of_saved(m, new_count, owner);
}

/// A reset issued by anyone but the owner is rejected as unauthorized and
/// leaves the store — and so every later query — exactly as it was.
pub proof fn law_reset_by_non_owner(m: Map<Seq<u8>, Seq<u8>>, sender: Seq<u8>, new_count: i32)
    requires
        state_of(m) is Some,
        sender != state_of(m)->Some_0.owner,
    ensures
        spec_reset(m, sender, new_count).0 == m,
        spec_reset(m, sender, new_count).1 == Err::<(), ContractError>(
            ContractError::Unauthorized,
        ),
        spec_query(spec_reset(m, sender, new_count).0) == spec_query(m),
{
}

/// Before any instantiation, every execute call leaves the store
/// untouched and reports it uninitialized, and so does a query.
pub proof fn law_before_instantiation(m: Map<Seq<u8>, Seq<u8>>, sender: Seq<u8>, msg: ExecuteMsg)
    requires
        !m.contains_key(spec_config_key()),
    ensures
        spec_execute(m, sender, msg).0 == m,
        spec_execute(m, sender, msg).1 == Err::<(), ContractError>(ContractError::Uninitialized),
        spec_query(m) == Err::<i32, ContractError>(ContractError::Uninitialized),
{
}

/// Once a store is initialized it stays initialized across every execute
/// call — accepted or rejected — and the owner never changes.
pub proof fn law_execute_keeps_record(m: Map<Seq<u8>, Seq<u8>>, sender: Seq<u8>, msg: ExecuteMsg)
    requires
        state_of(m) is Some,
    ensures
        state_of(spec_execute(m, sender, msg).0) is Some,
        state_of(spec_execute(m, sender, msg).0)->Some_0.owner == state_of(m)->Some_0.owner,
{
    let st = state_of(m)->Some_0;
    match msg {
        ExecuteMsg::Increment {  } => {
            lemma_state_of_saved(m, crate::contract::wrapping_increment(st.count), st.owner);
        },
        ExecuteMsg::Reset { count } => {
            if sender == st.owner {
                lemma_state_of_saved(m, count, st.owner);
            }
        },
    }
}

} // verus!
