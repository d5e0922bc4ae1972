use crate::error::ContractError;
use vstd::map::*;
use vstd::prelude::*;

verus! {

/// The singleton configuration record: the identity allowed to mutate the
/// ledger.
pub struct State {
    pub owner: String,
}

/// One stored balance: the accumulated amount for a (holder, category) key.
pub struct BalanceEntry {
    pub address: String,
    pub token_type: String,
    pub amount: u128,
}

/// A balance key as the specifications see it: the holder identity and the
/// token category, both as character sequences.
pub type PointerKey = (Seq<char>, Seq<char>);

pub open spec fn entry_key(e: BalanceEntry) -> PointerKey {
    (e.address@, e.token_type@)
}

/// Whether some entry of `entries` carries the key `k`.
pub open spec fn has_key(entries: Seq<BalanceEntry>, k: PointerKey) -> bool {
    exists|i: int| 0 <= i < entries.len() && entry_key(entries[i]) == k
}

/// No two entries carry the same key.
pub open spec fn unique_keys(entries: Seq<BalanceEntry>) -> bool {
    forall|i: int, j: int|
        0 <= i < j < entries.len() ==> entry_key(entries[i]) != entry_key(entries[j])
}

pub open spec fn index_of_key(entries: Seq<BalanceEntry>, k: PointerKey) -> int {
    choose|i: int| 0 <= i < entries.len() && entry_key(entries[i]) == k
}

/// The mapping that a sequence of balance entries denotes.
pub open spec fn balances_of(entries: Seq<BalanceEntry>) -> Map<PointerKey, u128> {
    Map::new(
        |k: PointerKey| has_key(entries, k),
        |k: PointerKey| entries[index_of_key(entries, k)].amount,
    )
}

/// The state store: the singleton configuration record plus the sparse
/// balance table.  Absent keys are never materialized; a read applies the
/// zero default only at the query boundary.
pub struct Store {
    config: Option<State>,
    entries: Vec<BalanceEntry>,
}

impl Store {
    /// The current owner, if the store was initialized.
    pub closed spec fn owner_view(&self) -> Option<Seq<char>> {
        match self.config {
            Some(s) => Some(s.owner@),
            None => None,
        }
    }

    /// The stored balance table as a mathematical map.
    pub closed spec fn balances(&self) -> Map<PointerKey, u128> {
        balances_of(self.entries@)
    }

    /// Well-formedness: at most one entry exists per key.
    pub closed spec fn wf(&self) -> bool {
        unique_keys(self.entries@)
    }

    /// An empty, uninitialized store.
    pub fn new() -> (s: Store)
        ensures
            s.wf(),
            s.owner_view() is None,
            s.balances() == Map::<PointerKey, u128>::empty(),
    {
        let s = Store { config: None, entries: Vec::new() };
        proof {
            assert(s.balances() =~= Map::<PointerKey, u128>::empty());
        }
        s
    }

    /// Replaces the configuration record; the balance table is untouched.
    pub fn save_config(&mut self, state: State)
        ensures
            final(self).owner_view() == Some(state.owner@),
            final(self).balances() == old(self).balances(),
            final(self).wf() == old(self).wf(),
    {
        self.config = Some(state);
    }

    /// Reads the configuration record; fails only if the store was never
    /// initialized.
    pub fn load_config(&self) -> (r: Result<State, ContractError>)
        ensures
            match self.owner_view() {
                Some(o) => r matches Ok(s) && s.owner@ == o,
                None => r == Err::<State, ContractError>(ContractError::NotFound),
            },
    {
        match &self.config {
            Some(s) => Ok(State { owner: s.owner.clone() }),
            None => Err(ContractError::NotFound),
        }
    }

    /// The index of the entry carrying the key, if one exists.
    fn find(&self, address: &String, token_type: &String) -> (r: Option<usize>)
        requires
            self.wf(),
        ensures
            match r {
                Some(i) => i < self.entries@.len() && entry_key(self.entries@[i as int])
                    == (address@, token_type@),
                None => !has_key(self.entries@, (address@, token_type@)),
            },
    {
        let mut i: usize = 0;
        while i < self.entries.len()
            invariant
                i <= self.entries@.len(),
                forall|j: int|
                    0 <= j < i ==> entry_key(self.entries@[j]) != (address@, token_type@),
            decreases self.entries@.len() - i,
        {
            let e = &self.entries[i];
            if e.address == *address && e.token_type == *token_type {
                return Some(i);
            }
            i = i + 1;
        }
        None
    }

    /// Reads the stored balance for a key: absent if never written.  A read
    /// never creates an entry.
    pub fn load_balance(&self, address: &String, token_type: &String) -> (r: Option<u128>)
        requires
            self.wf(),
        ensures
            r == if self.balances().contains_key((address@, token_type@)) {
                Some(self.balances()[(address@, token_type@)])
            } else {
                None::<u128>
            },
    {
        match self.find(address, token_type) {
            Some(i) => {
                proof {
                    lemma_balances_value(self.entries@, i as int);
                }
                Some(self.entries[i].amount)
            },
            None => None,
        }
    }

    /// Creates or replaces the entry for a key; the configuration record is
    /// untouched.
    pub fn save_balance(&mut self, address: String, token_type: String, value: u128)
        requires
            old(self).wf(),
        ensures
            final(self).wf(),
            final(self).owner_view() == old(self).owner_view(),
            final(self).balances() == old(self).balances().insert(
                (address@, token_type@),
                value,
            ),
    {
        let ghost pre = self.entries@;
        match self.find(&address, &token_type) {
            Some(i) => {
                let e = BalanceEntry { address, token_type, amount: value };
                proof {
                    lemma_update_entry(pre, e, i as int);
                }
                self.entries[i] = e;
            },
            None => {
                let e = BalanceEntry { address, token_type, amount: value };
                proof {
                    lemma_push_entry(pre, e);
                }
                self.entries.push(e);
            },
        }
    }
}

/// The balance an entry sequence stores under the key of its `i`th entry is
/// that entry's amount, provided keys are unique.
proof fn lemma_balances_value(entries: Seq<BalanceEntry>, i: int)
    requires
        unique_keys(entries),
        0 <= i < entries.len(),
    ensures
        balances_of(entries).contains_key(entry_key(entries[i])),
        balances_of(entries)[entry_key(entries[i])] == entries[i].amount,
{
    let k = entry_key(entries[i]);
    assert(has_key(entries, k));
    let j = index_of_key(entries, k);
    assert(0 <= j < entries.len() && entry_key(entries[j]) == k);
    if i < j {
        assert(entry_key(entries[i]) != entry_key(entries[j]));
    }
    if j < i {
        assert(entry_key(entries[j]) != entry_key(entries[i]));
    }
    assert(i == j);
}

/// Replacing the `i`th entry by one with the same key updates the denoted
/// map at that key and nothing else.
proof fn lemma_update_entry(pre: Seq<BalanceEntry>, e: BalanceEntry, i: int)
    requires
        unique_keys(pre),
        0 <= i < pre.len(),
        entry_key(e) == entry_key(pre[i]),
    ensures
        unique_keys(pre.update(i, e)),
        balances_of(pre.update(i, e)) == balances_of(pre).insert(entry_key(e), e.amount),
{
    let post = pre.update(i, e);
    let k = entry_key(e);
    assert forall|x: int| 0 <= x < post.len() implies entry_key(post[x]) == entry_key(
        pre[x],
    ) by {
        if x != i {
            assert(post[x] == pre[x]);
        }
    }
    assert(unique_keys(post));
    assert_maps_equal!(balances_of(post), balances_of(pre).insert(k, e.amount), kk => {
        if has_key(pre, kk) {
            let w = index_of_key(pre, kk);
            assert(0 <= w < pre.len() && entry_key(pre[w]) == kk);
            assert(entry_key(post[w]) == kk);
            assert(has_key(post, kk));
        }
        if has_key(post, kk) {
            let w = index_of_key(post, kk);
            assert(0 <= w < post.len() && entry_key(post[w]) == kk);
            assert(entry_key(pre[w]) == kk);
            assert(has_key(pre, kk));
        }
        assert(has_key(pre, k));
        if kk == k {
            lemma_balances_value(post, i);
        } else if has_key(pre, kk) {
            let w = index_of_key(pre, kk);
            assert(w != i);
            lemma_balances_value(pre, w);
            lemma_balances_value(post, w);
        }
    });
}

/// Appending an entry whose key is new inserts that key into the denoted
/// map and leaves every other key alone.
proof fn lemma_push_entry(pre: Seq<BalanceEntry>, e: BalanceEntry)
    requires
        unique_keys(pre),
        !has_key(pre, entry_key(e)),
    ensures
        unique_keys(pre.push(e)),
        balances_of(pre.push(e)) == balances_of(pre).insert(entry_key(e), e.amount),
{
    let post = pre.push(e);
    let k = entry_key(e);
    let n = pre.len() as int;
    assert forall|p: int, q: int| 0 <= p < q < post.len() implies entry_key(post[p])
        != entry_key(post[q]) by {
        if q < n {
            assert(post[p] == pre[p] && post[q] == pre[q]);
        } else {
            assert(post[q] == e);
            assert(post[p] == pre[p]);
            if entry_key(pre[p]) == k {
                assert(has_key(pre, k));
            }
        }
    }
    assert_maps_equal!(balances_of(post), balances_of(pre).insert(k, e.amount), kk => {
        if has_key(pre, kk) {
            let w = index_of_key(pre, kk);
            assert(0 <= w < pre.len() && entry_key(pre[w]) == kk);
            assert(entry_key(post[w]) == kk);
            assert(has_key(post, kk));
        }
        assert(entry_key(post[n]) == k);
        assert(has_key(post, k));
        if kk == k {
            lemma_balances_value(post, n);
        } else if has_key(post, kk) {
            let w = index_of_key(post, kk);
            assert(0 <= w < post.len() && entry_key(post[w]) == kk);
            assert(w != n);
            assert(entry_key(pre[w]) == kk);
            assert(has_key(pre, kk));
            lemma_balances_value(pre, w);
            lemma_balances_value(post, w);
        }
    });
}

} // verus!
