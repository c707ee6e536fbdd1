//! The persisted state record and the caller identities that own it.

use vstd::prelude::*;

verus! {

/// An opaque, canonicalized account identity, as the host hands it in.
///
/// The contract never inspects the bytes; it only stores them and compares
/// them for equality.
#[derive(Debug)]
pub struct Identity {
    pub bytes: Vec<u8>,
}

impl View for Identity {
    type V = Seq<u8>;

    open spec fn view(&self) -> Seq<u8> {
        self.bytes@
    }
}

impl Identity {
    /// Wraps the canonical bytes of an identity.
    pub fn new(bytes: Vec<u8>) -> (r: Identity)
        ensures
            r@ == bytes@,
    {
        Identity { bytes }
    }

    /// Returns a fresh copy of this identity.
    pub fn duplicate(&self) -> (r: Identity)
        ensures
            r@ == self@,
    {
        Identity { bytes: crate::bytes::copy_bytes(&self.bytes) }
    }
}

impl PartialEq for Identity {
    fn eq(&self, other: &Identity) -> (r: bool) {
        crate::bytes::bytes_eq(&self.bytes, &other.bytes)
    }
}

impl vstd::std_specs::cmp::PartialEqSpecImpl for Identity {
    open spec fn obeys_eq_spec() -> bool {
        true
    }

    open spec fn eq_spec(&self, other: &Identity) -> bool {
        self.bytes@ == other.bytes@
    }
}

/// The read-only call context the host supplies with each message: at
/// minimum, the canonical identity of the caller.
#[derive(Debug)]
pub struct MessageInfo {
    pub sender: Identity,
}

/// The sole persisted entity: the counter value and the identity captured
/// at instantiation time.
#[derive(Debug)]
pub struct State {
    pub count: i32,
    pub owner: Identity,
}

/// The mathematical shadow of a [`State`] record.
pub struct StateView {
    pub count: i32,
    pub owner: Seq<u8>,
}

impl View for State {
    type V = StateView;

    open spec fn view(&self) -> StateView {
        StateView { count: self.count, owner: self.owner@ }
    }
}

/// The well-known store key under which the state record is persisted
/// (the bytes of `"config"`).
pub open spec fn spec_config_key() -> Seq<u8> {
    seq![99u8, 111u8, 110u8, 102u8, 105u8, 103u8]
}

/// Builds the store key under which the state record is persisted.
pub fn config_key() -> (k: Vec<u8>)
    ensures
        k@ == spec_config_key(),
{
    let k: Vec<u8> = vec![99u8, 111u8, 110u8, 102u8, 105u8, 103u8];
    proof {
        assert(k@ =~= spec_config_key());
    }
    k
}

} // verus!
