//! The host-facing calling convention: entry points over serialized
//! messages.
//!
//! The host invokes the contract once per transaction or query, handing
//! in the raw message bytes. Each entry point parses the message against
//! its schema — failing with [`ContractError::MalformedMessage`] and
//! leaving the store untouched on anything unparseable — and then runs
//! the typed operation from [`crate::contract`].

use vstd::prelude::*;

use crate::contract::{
    execute_reply_matches, spec_action_of, spec_execute, spec_instantiate, spec_query, Response,
};
use crate::error::ContractError;
use crate::msg::{
    decode_execute, decode_instantiate, decode_query, spec_decode_execute, spec_decode_instantiate,
    spec_decode_query, spec_encode_response,
};
use crate::state::MessageInfo;
use crate::store::Store;

verus! {

/// Parses and runs an instantiate call.
pub fn instantiate<S: Store>(store: &mut S, info: MessageInfo, msg_bytes: &Vec<u8>) -> (r: Result<
    Response,
    ContractError,
>)
    ensures
        match spec_decode_instantiate(msg_bytes@) {
            Some(m) => {
                &&& final(store).contents() == spec_instantiate(
                    old(store).contents(),
                    info.sender@,
                    m.count,
                )
                &&& r matches Ok(resp) && resp.messages@.len() == 0 && resp.attributes@.len() == 0
            },
            None => {
                &&& final(store).contents() == old(store).contents()
                &&& r matches Err(e) && e == ContractError::MalformedMessage
            },
        },
{
    match decode_instantiate(msg_bytes) {
        Some(msg) => crate::contract::instantiate(store, info, msg),
        None => Err(ContractError::MalformedMessage),
    }
}

/// Parses and runs an execute call.
pub fn execute<S: Store>(store: &mut S, info: MessageInfo, msg_bytes: &Vec<u8>) -> (r: Result<
    Response,
    ContractError,
>)
    ensures
        match spec_decode_execute(msg_bytes@) {
            Some(m) => {
                &&& final(store).contents() == spec_execute(
                    old(store).contents(),
                    info.sender@,
                    m,
                ).0
                &&& execute_reply_matches(
                    r,
                    spec_execute(old(store).contents(), info.sender@, m).1,
                    spec_action_of(m),
                )
            },
            None => {
                &&& final(store).contents() == old(store).contents()
                &&& r matches Err(e) && e == ContractError::MalformedMessage
            },
        },
{
    match decode_execute(msg_bytes) {
        Some(msg) => crate::contract::execute(store, info, msg),
        None => Err(ContractError::MalformedMessage),
    }
}

/// Parses and runs a query; the store is read-only here.
pub fn query<S: Store>(store: &S, msg_bytes: &Vec<u8>) -> (r: Result<Vec<u8>, ContractError>)
    ensures
        match spec_decode_query(msg_bytes@) {
            Some(m) => match spec_query(store.contents()) {
                Ok(c) => r matches Ok(b) && b@ == spec_encode_response(c),
                Err(e) => r matches Err(e2) && e2 == e,
            },
            None => r matches Err(e) && e == ContractError::MalformedMessage,
        },
{
    match decode_query(msg_bytes) {
        Some(msg) => crate::contract::query(store, msg),
        None => Err(ContractError::MalformedMessage),
    }
}

} // verus!
