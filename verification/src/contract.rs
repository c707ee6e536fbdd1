//! The contract state machine: dispatch, transitions and authorization.
//!
//! Each operation is specified against a mathematical model of the host
//! store (a map of byte strings). The model functions [`spec_instantiate`],
//! [`spec_execute`] and [`spec_query`] say exactly which map every
//! operation leaves behind and which result it returns; the executable
//! functions are proved to match them.

use vstd::prelude::*;

use crate::codec::{decode_state, encode_state, spec_decode_state, spec_encode_state};
use crate::msg::{
    spec_tag_increment, spec_tag_reset, tag_increment, tag_reset, ExecuteMsg, GetCountResponse,
    InstantiateMsg, QueryMsg,
};
use crate::state::{config_key, spec_config_key, MessageInfo, State, StateView};
use crate::store::Store;

pub use crate::error::ContractError;

verus! {

/// The attribute key under which execute responses report their action
/// (the bytes of `"action"`).
pub open spec fn spec_attr_action() -> Seq<u8> {
    seq![97u8, 99u8, 116u8, 105u8, 111u8, 110u8]
}

/// Builds the attribute key under which execute responses report their
/// action.
pub fn attr_action() -> (k: Vec<u8>)
    ensures
        k@ == spec_attr_action(),
{
    let k: Vec<u8> = vec![97u8, 99u8, 116u8, 105u8, 111u8, 110u8];
    proof {
        assert(k@ =~= spec_attr_action());
    }
    k
}

/// What a successful operation hands back to the host: submessages (none
/// are ever issued here) and attribute pairs for observability.
#[derive(Debug)]
pub struct Response {
    pub messages: Vec<Vec<u8>>,
    pub attributes: Vec<(Vec<u8>, Vec<u8>)>,
}

impl Response {
    /// Creates an empty response.
    pub fn new() -> (r: Response)
        ensures
            r.messages@ == Seq::<Vec<u8>>::empty(),
            r.attributes@ == Seq::<(Vec<u8>, Vec<u8>)>::empty(),
    {
        Response { messages: Vec::new(), attributes: Vec::new() }
    }

    /// Appends one attribute pair.
    pub fn add_attribute(self, key: Vec<u8>, value: Vec<u8>) -> (r: Response)
        ensures
            r.messages@ == self.messages@,
            r.attributes@ == self.attributes@.push((key, value)),
    {
        let mut attributes = self.attributes;
        attributes.push((key, value));
        Response { messages: self.messages, attributes }
    }
}

/// Whether a response announces exactly the given action and carries no
/// submessages.
pub open spec fn response_announces(resp: Response, action: Seq<u8>) -> bool {
    &&& resp.messages@.len() == 0
    &&& resp.attributes@.len() == 1
    &&& resp.attributes@[0].0@ == spec_attr_action()
    &&& resp.attributes@[0].1@ == action
}

/// The state record a store holds, if a decodable one is present under
/// the well-known key.
pub open spec fn state_of(m: Map<Seq<u8>, Seq<u8>>) -> Option<StateView> {
    if m.contains_key(spec_config_key()) {
        spec_decode_state(m[spec_config_key()])
    } else {
        None
    }
}

/// The error reported when no state record can be loaded: the record is
/// either absent or undecodable.
pub open spec fn load_error(m: Map<Seq<u8>, Seq<u8>>) -> ContractError {
    if m.contains_key(spec_config_key()) {
        ContractError::SerializationError
    } else {
        ContractError::Uninitialized
    }
}

/// The store after a record with the given fields is saved.
pub open spec fn save_to(m: Map<Seq<u8>, Seq<u8>>, count: i32, owner: Seq<u8>) -> Map<
    Seq<u8>,
    Seq<u8>,
> {
    m.insert(spec_config_key(), spec_encode_state(count, owner))
}

/// The counter after one increment. The host never specifies an overflow
/// policy, so the counter deliberately wraps around at the top of the
/// signed range.
pub open spec fn wrapping_increment(c: i32) -> i32 {
    if c == i32::MAX {
        i32::MIN
    } else {
        (c + 1) as i32
    }
}

/// The store created by instantiation: the caller becomes the owner and
/// the counter starts at the supplied value.
pub open spec fn spec_instantiate(m: Map<Seq<u8>, Seq<u8>>, sender: Seq<u8>, count: i32) -> Map<
    Seq<u8>,
    Seq<u8>,
> {
    save_to(m, count, sender)
}

/// The store and result of an increment: any caller may bump the counter
/// by one, and the store is untouched when no record can be loaded.
pub open spec fn spec_increment(m: Map<Seq<u8>, Seq<u8>>) -> (Map<Seq<u8>, Seq<u8>>, Result<
    (),
    ContractError,
>) {
    match state_of(m) {
        Some(st) => (save_to(m, wrapping_increment(st.count), st.owner), Ok(())),
        None => (m, Err(load_error(m))),
    }
}

/// The store and result of a reset: only the owner may set the counter,
/// and every rejected call leaves the store untouched.
pub open spec fn spec_reset(m: Map<Seq<u8>, Seq<u8>>, sender: Seq<u8>, count: i32) -> (Map<
    Seq<u8>,
    Seq<u8>,
>, Result<(), ContractError>) {
    match state_of(m) {
        Some(st) => if sender == st.owner {
            (save_to(m, count, st.owner), Ok(()))
        } else {
            (m, Err(ContractError::Unauthorized))
        },
        None => (m, Err(load_error(m))),
    }
}

/// The store and result of an execute call, dispatched by message tag.
pub open spec fn spec_execute(m: Map<Seq<u8>, Seq<u8>>, sender: Seq<u8>, msg: ExecuteMsg) -> (Map<
    Seq<u8>,
    Seq<u8>,
>, Result<(), ContractError>) {
    match msg {
        ExecuteMsg::Increment {  } => spec_increment(m),
        ExecuteMsg::Reset { count } => spec_reset(m, sender, count),
    }
}

/// The action tag an execute message announces on success.
pub open spec fn spec_action_of(msg: ExecuteMsg) -> Seq<u8> {
    match msg {
        ExecuteMsg::Increment {  } => spec_tag_increment(),
        ExecuteMsg::Reset { .. } => spec_tag_reset(),
    }
}

/// The result of a count query: the stored counter, or why it cannot be
/// read.
pub open spec fn spec_query(m: Map<Seq<u8>, Seq<u8>>) -> Result<i32, ContractError> {
    match state_of(m) {
        Some(st) => Ok(st.count),
        None => Err(load_error(m)),
    }
}

/// Whether an execute entry point's return value reports the given model
/// result, announcing `action` on success.
pub open spec fn execute_reply_matches(
    r: Result<Response, ContractError>,
    res: Result<(), ContractError>,
    action: Seq<u8>,
) -> bool {
    match res {
        Ok(_) => r matches Ok(resp) && response_announces(resp, action),
        Err(e) => r matches Err(e2) && e2 == e,
    }
}

/// Loads the state record, reporting why when none can be read.
fn load_state<S: Store>(store: &S) -> (r: Result<State, ContractError>)
    ensures
        match state_of(store.contents()) {
            Some(st) => r matches Ok(s) && s@ == st,
            None => r matches Err(e) && e == load_error(store.contents()),
        },
{
    match store.get(&config_key()) {
        None => Err(ContractError::Uninitialized),
        Some(bytes) => match decode_state(&bytes) {
            Some(state) => Ok(state),
            None => Err(ContractError::SerializationError),
        },
    }
}

/// Saves the state record under the well-known key.
fn save_state<S: Store>(store: &mut S, state: &State)
    ensures
        final(store).contents() == save_to(old(store).contents(), state.count, state.owner@),
{
    let bytes = encode_state(state);
    store.set(config_key(), bytes);
}

/// Creates the state record: the counter starts at the supplied value and
/// the caller becomes the owner. This is the one write that creates the
/// record; the host guarantees a single instantiation per contract
/// instance.
pub fn instantiate<S: Store>(store: &mut S, info: MessageInfo, msg: InstantiateMsg) -> (r: Result<
    Response,
    ContractError,
>)
    ensures
        final(store).contents() == spec_instantiate(old(store).contents(), info.sender@, msg.count),
        r matches Ok(resp) && resp.messages@.len() == 0 && resp.attributes@.len() == 0,
{
    let state = State { count: msg.count, owner: info.sender };
    save_state(store, &state);
    Ok(Response::new())
}

/// Executes a state-mutating call, dispatched by message tag.
pub fn execute<S: Store>(store: &mut S, info: MessageInfo, msg: ExecuteMsg) -> (r: Result<
    Response,
    ContractError,
>)
    ensures
        final(store).contents() == spec_execute(old(store).contents(), info.sender@, msg).0,
        execute_reply_matches(
            r,
            spec_execute(old(store).contents(), info.sender@, msg).1,
            spec_action_of(msg),
        ),
{
    match msg {
        ExecuteMsg::Increment {  } => increment(store),
        ExecuteMsg::Reset { count } => reset(store, info, count),
    }
}

/// Bumps the counter by one. Any caller may do this; the counter wraps
/// around at the top of the signed range.
pub fn increment<S: Store>(store: &mut S) -> (r: Result<Response, ContractError>)
    ensures
        final(store).contents() == spec_increment(old(store).contents()).0,
        execute_reply_matches(r, spec_increment(old(store).contents()).1, spec_tag_increment()),
{
    let state = match load_state(store) {
        Ok(s) => s,
        Err(e) => { return Err(e) },
    };
    let next = if state.count == i32::MAX {
        i32::MIN
    } else {
        state.count + 1
    };
    let new_state = State { count: next, owner: state.owner };
    save_state(store, &new_state);
    Ok(Response::new().add_attribute(attr_action(), tag_increment()))
}

/// Sets the counter to `count`, provided the caller is the owner; any
/// other caller is rejected and the store is left unmodified.
pub fn reset<S: Store>(store: &mut S, info: MessageInfo, count: i32) -> (r: Result<
    Response,
    ContractError,
>)
    ensures
        final(store).contents() == spec_reset(old(store).contents(), info.sender@, count).0,
        execute_reply_matches(
            r,
            spec_reset(old(store).contents(), info.sender@, count).1,
            spec_tag_reset(),
        ),
{
    let state = match load_state(store) {
        Ok(s) => s,
        Err(e) => { return Err(e) },
    };
    if !(info.sender == state.owner) {
        return Err(ContractError::Unauthorized);
    }
    let new_state = State { count, owner: state.owner };
    save_state(store, &new_state);
    Ok(Response::new().add_attribute(attr_action(), tag_reset()))
}

/// Answers a read-only call with the serialized response; the store is
/// never touched.
pub fn query<S: Store>(store: &S, msg: QueryMsg) -> (r: Result<Vec<u8>, ContractError>)
    ensures
        match spec_query(store.contents()) {
            Ok(c) => r matches Ok(b) && b@ == crate::msg::spec_encode_response(c),
            Err(e) => r matches Err(e2) && e2 == e,
        },
{
    match msg {
        QueryMsg::GetCount {  } => {
            let resp = match count(store) {
                Ok(resp) => resp,
                Err(e) => { return Err(e) },
            };
            Ok(crate::msg::encode_response(&resp))
        },
    }
}

/// Reads the stored counter.
pub fn count<S: Store>(store: &S) -> (r: Result<GetCountResponse, ContractError>)
    ensures
        match spec_query(store.contents()) {
            Ok(c) => r matches Ok(resp) && resp.count == c,
            Err(e) => r matches Err(e2) && e2 == e,
        },
{
    let state = match load_state(store) {
        Ok(s) => s,
        Err(e) => { return Err(e) },
    };
    Ok(GetCountResponse { count: state.count })
}

} // verus!
