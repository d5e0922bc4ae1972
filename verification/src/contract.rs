use crate::error::ContractError;
use crate::msg::{ExecuteMsg, InstantiateMsg, QueryAnswer, QueryMsg};
use crate::state::{PointerKey, State, Store};
use vstd::prelude::*;

verus! {

/// The balance a map stores under a key, with the zero default for a key
/// never written.
pub open spec fn lookup0(m: Map<PointerKey, u128>, k: PointerKey) -> u128 {
    if m.contains_key(k) {
        m[k]
    } else {
        0
    }
}

/// The balance table after accumulating `x` onto key `k`: a first write
/// stores `x` itself, a later one adds `x` to what is stored.
pub open spec fn accumulate(m: Map<PointerKey, u128>, k: PointerKey, x: u128) -> Map<
    PointerKey,
    u128,
> {
    m.insert(k, (lookup0(m, k) + x) as u128)
}

/// Whether `sender` passes the authorization check against the store's
/// current owner.
pub open spec fn authorized(s: Store, sender: Seq<char>) -> bool {
    s.owner_view() == Some(sender)
}

/// The configuration record the initialization request asks for.
pub fn initial_state(msg: InstantiateMsg) -> (s: State)
    ensures
        s.owner@ == msg.owner@,
{
    State { owner: msg.owner }
}

/// Establishes the configuration record with the initial owner; the
/// balance table is untouched.
pub fn instantiate(store: &mut Store, msg: InstantiateMsg) -> (r: Result<(), ContractError>)
    requires
        old(store).wf(),
    ensures
        final(store).wf(),
        r == Ok::<(), ContractError>(()),
        final(store).owner_view() == Some(msg.owner@),
        final(store).balances() == old(store).balances(),
{
    store.save_config(initial_state(msg));
    Ok(())
}

/// Everything the accumulate command promises, relating the store before
/// and after the call to its result.  Checks come in the order the command
/// applies them: a missing configuration record, then address format, then
/// authorization, then overflow.
pub open spec fn set_pointer_post(
    pre: Store,
    post: Store,
    sender: Seq<char>,
    addr_valid: bool,
    address: Seq<char>,
    token_type: Seq<char>,
    pointer: u128,
    r: Result<(), ContractError>,
) -> bool {
    let k = (address, token_type);
    match pre.owner_view() {
        None => r == Err::<(), ContractError>(ContractError::NotFound) && post == pre,
        Some(_) => if !addr_valid {
            r == Err::<(), ContractError>(ContractError::InvalidAddress) && post == pre
        } else if !authorized(pre, sender) {
            r == Err::<(), ContractError>(ContractError::Unauthorized) && post == pre
        } else if lookup0(pre.balances(), k) + pointer <= u128::MAX {
            r == Ok::<(), ContractError>(()) && post.balances() == accumulate(
                pre.balances(),
                k,
                pointer,
            ) && post.owner_view() == pre.owner_view() && post.wf()
        } else {
            r == Err::<(), ContractError>(ContractError::ArithmeticOverflow) && post == pre
        },
    }
}

/// Everything the owner-change command promises.  Address format is judged
/// before the configuration record is read, so a malformed address is
/// reported even on an uninitialized store.
pub open spec fn change_owner_post(
    pre: Store,
    post: Store,
    sender: Seq<char>,
    addr_valid: bool,
    address: Seq<char>,
    r: Result<(), ContractError>,
) -> bool {
    if !addr_valid {
        r == Err::<(), ContractError>(ContractError::InvalidAddress) && post == pre
    } else {
        match pre.owner_view() {
            None => r == Err::<(), ContractError>(ContractError::NotFound) && post == pre,
            Some(_) => if !authorized(pre, sender) {
                r == Err::<(), ContractError>(ContractError::Unauthorized) && post == pre
            } else {
                r == Ok::<(), ContractError>(()) && post.owner_view() == Some(address)
                    && post.balances() == pre.balances() && post.wf()
            },
        }
    }
}

/// Decides the accumulate command once the configuration record and the
/// existing balance are in hand: the value to store, or the error to
/// report.  `addr_valid` is the host's judgement of the holder address's
/// format.
pub fn decide_set_pointer(
    owner: &String,
    sender: &String,
    addr_valid: bool,
    existing: Option<u128>,
    pointer: u128,
) -> (r: Result<u128, ContractError>)
    ensures
        !addr_valid ==> r == Err::<u128, ContractError>(ContractError::InvalidAddress),
        addr_valid && owner@ != sender@ ==> r == Err::<u128, ContractError>(
            ContractError::Unauthorized,
        ),
        addr_valid && owner@ == sender@ ==> match existing {
            None => r == Ok::<u128, ContractError>(pointer),
            Some(v) => if v + pointer <= u128::MAX {
                r == Ok::<u128, ContractError>((v + pointer) as u128)
            } else {
                r == Err::<u128, ContractError>(ContractError::ArithmeticOverflow)
            },
        },
{
    if !addr_valid {
        return Err(ContractError::InvalidAddress);
    }
    if *owner != *sender {
        return Err(ContractError::Unauthorized);
    }
    match existing {
        None => Ok(pointer),
        Some(v) => {
            if pointer <= u128::MAX - v {
                Ok(v + pointer)
            } else {
                Err(ContractError::ArithmeticOverflow)
            }
        },
    }
}

/// Decides the owner-change command once the configuration record is in
/// hand: the record to store, or the error to report.  The caller judges
/// the address format first.
pub fn decide_change_owner(owner: &String, sender: &String, address: String) -> (r: Result<
    State,
    ContractError,
>)
    ensures
        owner@ != sender@ ==> r == Err::<State, ContractError>(ContractError::Unauthorized),
        owner@ == sender@ ==> (r matches Ok(s) && s.owner@ == address@),
{
    if *owner != *sender {
        return Err(ContractError::Unauthorized);
    }
    Ok(State { owner: address })
}

/// Accumulates `pointer` onto the balance stored for
/// (`address`, `token_type`), creating the entry on a first write.  Only
/// the current owner succeeds; any error leaves the store unchanged.
pub fn execute_set_pointer(
    store: &mut Store,
    sender: String,
    addr_valid: bool,
    address: String,
    token_type: String,
    pointer: u128,
) -> (r: Result<(), ContractError>)
    requires
        old(store).wf(),
    ensures
        final(store).wf(),
        set_pointer_post(
            *old(store),
            *final(store),
            sender@,
            addr_valid,
            address@,
            token_type@,
            pointer,
            r,
        ),
{
    let state = match store.load_config() {
        Ok(s) => s,
        Err(e) => { return Err(e); },
    };
    let existing = store.load_balance(&address, &token_type);
    match decide_set_pointer(&state.owner, &sender, addr_valid, existing, pointer) {
        Ok(new_value) => {
            store.save_balance(address, token_type, new_value);
            Ok(())
        },
        Err(e) => Err(e),
    }
}

/// Replaces the owner of the ledger.  Only the current owner succeeds; any
/// error leaves the store unchanged.
pub fn execute_change_owner(
    store: &mut Store,
    sender: String,
    addr_valid: bool,
    address: String,
) -> (r: Result<(), ContractError>)
    requires
        old(store).wf(),
    ensures
        final(store).wf(),
        change_owner_post(*old(store), *final(store), sender@, addr_valid, address@, r),
{
    if !addr_valid {
        return Err(ContractError::InvalidAddress);
    }
    let state = match store.load_config() {
        Ok(s) => s,
        Err(e) => { return Err(e); },
    };
    match decide_change_owner(&state.owner, &sender, address) {
        Ok(new_state) => {
            store.save_config(new_state);
            Ok(())
        },
        Err(e) => Err(e),
    }
}

/// Applies one mutating command on behalf of `sender`.  `addr_valid` is
/// the host's judgement of the format of the address the command names.
pub fn execute(store: &mut Store, sender: String, addr_valid: bool, msg: ExecuteMsg) -> (r: Result<
    (),
    ContractError,
>)
    requires
        old(store).wf(),
    ensures
        final(store).wf(),
        match msg {
            ExecuteMsg::SetPointer { address, token_type, pointer } => set_pointer_post(
                *old(store),
                *final(store),
                sender@,
                addr_valid,
                address@,
                token_type@,
                pointer,
                r,
            ),
            ExecuteMsg::ChangeOwner { address } => change_owner_post(
                *old(store),
                *final(store),
                sender@,
                addr_valid,
                address@,
                r,
            ),
        },
{
    match msg {
        ExecuteMsg::SetPointer { address, token_type, pointer } => execute_set_pointer(
            store,
            sender,
            addr_valid,
            address,
            token_type,
            pointer,
        ),
        ExecuteMsg::ChangeOwner { address } => execute_change_owner(
            store,
            sender,
            addr_valid,
            address,
        ),
    }
}

/// Returns the configuration record verbatim; fails only on an
/// uninitialized store.
pub fn query_get_state(store: &Store) -> (r: Result<State, ContractError>)
    ensures
        match store.owner_view() {
            Some(o) => r matches Ok(s) && s.owner@ == o,
            None => r == Err::<State, ContractError>(ContractError::NotFound),
        },
{
    store.load_config()
}

/// Returns the balance stored for a key, or zero if the key was never
/// written: a missing key is not an error.
pub fn query_get_pointer(store: &Store, address: String, token_type: String) -> (r: Result<
    u128,
    ContractError,
>)
    requires
        store.wf(),
    ensures
        r == Ok::<u128, ContractError>(lookup0(store.balances(), (address@, token_type@))),
        !store.balances().contains_key((address@, token_type@)) ==> r == Ok::<
            u128,
            ContractError,
        >(0),
{
    match store.load_balance(&address, &token_type) {
        Some(v) => Ok(v),
        None => Ok(0),
    }
}

/// The value a balance read reports: the stored value, or the zero
/// default for a key that was never written.
pub fn pointer_or_zero(existing: Option<u128>) -> (r: u128)
    ensures
        r == match existing {
            Some(v) => v,
            None => 0u128,
        },
{
    match existing {
        Some(v) => v,
        None => 0,
    }
}

/// Answers one read-only request against the current store.
pub fn query(store: &Store, msg: QueryMsg) -> (r: Result<QueryAnswer, ContractError>)
    requires
        store.wf(),
    ensures
        match msg {
            QueryMsg::GetStateInfo {  } => match store.owner_view() {
                Some(o) => r matches Ok(QueryAnswer::StateInfo(s)) && s.owner@ == o,
                None => r == Err::<QueryAnswer, ContractError>(ContractError::NotFound),
            },
            QueryMsg::GetPointer { address, token_type } => r == Ok::<
                QueryAnswer,
                ContractError,
            >(QueryAnswer::Pointer(lookup0(store.balances(), (address@, token_type@)))),
        },
{
    match msg {
        QueryMsg::GetStateInfo {  } => match query_get_state(store) {
            Ok(s) => Ok(QueryAnswer::StateInfo(s)),
            Err(e) => Err(e),
        },
        QueryMsg::GetPointer { address, token_type } => match query_get_pointer(
            store,
            address,
            token_type,
        ) {
            Ok(v) => Ok(QueryAnswer::Pointer(v)),
            Err(e) => Err(e),
        },
    }
}

/// After initialization establishes owner `o`, the state query is answered
/// and the owner it reports is exactly `o`.  The premises are what
/// `instantiate` ensures of the store and what `query_get_state` ensures of
/// its answer.
pub proof fn lemma_initialize_then_state_info(post: Store, o: Seq<char>, answer: State)
    requires
        post.owner_view() == Some(o),
        answer.owner@ == post.owner_view()->Some_0,
    ensures
        answer.owner@ == o,
{
}

/// Accumulation is associative: adding `a` and then `b` onto one key
/// stores the same balance table as adding `a + b` at once.
pub proof fn lemma_accumulation_associative(
    m: Map<PointerKey, u128>,
    k: PointerKey,
    a: u128,
    b: u128,
)
    requires
        lookup0(m, k) + a + b <= u128::MAX,
    ensures
        accumulate(accumulate(m, k, a), k, b) == accumulate(m, k, (a + b) as u128),
{
    assert(lookup0(accumulate(m, k, a), k) == lookup0(m, k) + a);
    assert(accumulate(accumulate(m, k, a), k, b) =~= accumulate(m, k, (a + b) as u128));
}

/// Balances under distinct keys are independent: accumulating onto one key
/// changes neither the presence nor the value of any other key.
pub proof fn lemma_distinct_keys_independent(
    m: Map<PointerKey, u128>,
    k1: PointerKey,
    k2: PointerKey,
    x: u128,
)
    requires
        k1 != k2,
    ensures
        accumulate(m, k1, x).contains_key(k2) == m.contains_key(k2),
        lookup0(accumulate(m, k1, x), k2) == lookup0(m, k2),
{
}

/// Balances never decrease: accumulation moves the written key from its
/// old value to the old value plus the increment, and no subtraction
/// operation exists.
pub proof fn lemma_accumulate_monotonic(m: Map<PointerKey, u128>, k: PointerKey, x: u128)
    requires
        lookup0(m, k) + x <= u128::MAX,
    ensures
        lookup0(accumulate(m, k, x), k) == lookup0(m, k) + x,
        lookup0(accumulate(m, k, x), k) >= lookup0(m, k),
{
}

/// Replacing the owner takes effect for every later authorization check:
/// once the configuration record holds `new_owner`, that identity is
/// authorized and any other identity is not.
pub proof fn lemma_change_owner_transfers_authority(
    post: Store,
    former: Seq<char>,
    new_owner: Seq<char>,
)
    requires
        post.owner_view() == Some(new_owner),
        former != new_owner,
    ensures
        authorized(post, new_owner),
        !authorized(post, former),
{
}

} // verus!
