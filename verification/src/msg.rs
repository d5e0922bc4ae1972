use crate::state::State;
use vstd::prelude::*;

verus! {

/// The initialization request: names the initial owner.
pub struct InstantiateMsg {
    pub owner: String,
}

/// The two mutating commands.
pub enum ExecuteMsg {
    /// Accumulate `pointer` onto the balance stored for
    /// (`address`, `token_type`); a first write stores `pointer` itself.
    SetPointer { address: String, token_type: String, pointer: u128 },
    /// Replace the current owner with `address`.
    ChangeOwner { address: String },
}

/// The two read-only requests.
pub enum QueryMsg {
    /// Fetch the configuration record.
    GetStateInfo {},
    /// Fetch the balance stored for (`address`, `token_type`), zero if the
    /// key was never written.
    GetPointer { address: String, token_type: String },
}

/// What a query returns, before the host serializes it.
pub enum QueryAnswer {
    StateInfo(State),
    Pointer(u128),
}

} // verus!
