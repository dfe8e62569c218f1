use vstd::prelude::*;

use crate::state::{ImageState, ImageStateView, Pubkey};

verus! {

/// One allocated account: a record and the address it was created at.
#[derive(Debug)]
pub struct Account {
    pub address: Pubkey,
    pub state: ImageState,
}

/// Returned by `create_if_absent` when the address already holds an account.
#[derive(Clone, Copy, Debug, PartialEq, Eq)]
pub struct AlreadyInUse;

/// The storage in which records are created: a set of accounts, each at an
/// address of its own. Accounts are only ever added, never changed or removed.
#[derive(Debug)]
pub struct Ledger {
    accounts: Vec<Account>,
}

/// Whether no two accounts of `accounts` share an address.
pub open spec fn addresses_distinct(accounts: Seq<Account>) -> bool {
    forall|i: int, j: int|
        0 <= i < accounts.len() && 0 <= j < accounts.len() && i != j
            ==> #[trigger] accounts[i].address@ != #[trigger] accounts[j].address@
}

/// Whether some account of `accounts` lives at `address`.
pub open spec fn holds_address(accounts: Seq<Account>, address: Seq<u8>) -> bool {
    exists|i: int| 0 <= i < accounts.len() && #[trigger] accounts[i].address@ == address
}

/// The records of `accounts`, keyed by the address each lives at.
pub closed spec fn records_of(accounts: Seq<Account>) -> Map<Seq<u8>, ImageStateView> {
    Map::new(
        |a: Seq<u8>| holds_address(accounts, a),
        |a: Seq<u8>|
            accounts[choose|i: int| 0 <= i < accounts.len() && #[trigger] accounts[i].address@ == a].state@,
    )
}

proof fn lemma_records_lookup(accounts: Seq<Account>, i: int)
    requires
        addresses_distinct(accounts),
        0 <= i < accounts.len(),
    ensures
        records_of(accounts).contains_key(accounts[i].address@),
        records_of(accounts)[accounts[i].address@] == accounts[i].state@,
{
    let a = accounts[i].address@;
    assert(holds_address(accounts, a));
    let k = choose|k: int| 0 <= k < accounts.len() && #[trigger] accounts[k].address@ == a;
    assert(k == i);
}

impl View for Ledger {
    type V = Map<Seq<u8>, ImageStateView>;

    closed spec fn view(&self) -> Map<Seq<u8>, ImageStateView> {
        records_of(self.accounts@)
    }
}

impl Ledger {
    #[verifier::type_invariant]
    spec fn wf(self) -> bool {
        addresses_distinct(self.accounts@)
    }

    /// An empty ledger.
    pub fn new() -> (r: Ledger)
        ensures
            r@ == Map::<Seq<u8>, ImageStateView>::empty(),
    {
        let r = Ledger { accounts: Vec::new() };
        assert(r@ =~= Map::<Seq<u8>, ImageStateView>::empty());
        r
    }

    /// Number of records held.
    pub fn len(&self) -> (n: usize)
        ensures
            n == self@.len(),
    {
        proof {
            use_type_invariant(self);
            let accounts = self.accounts@;
            let to_address = |i: int| accounts[i].address@;
            let indices = vstd::set_lib::set_int_range(0, accounts.len() as int);
            vstd::set_lib::lemma_int_range(0, accounts.len() as int);
            assert(vstd::relations::injective_on(to_address, indices));
            assert forall|a: Seq<u8>| #[trigger] self@.dom().contains(a) == indices.map(to_address).contains(a) by {
                if holds_address(accounts, a) {
                    let k = choose|k: int| 0 <= k < accounts.len() && #[trigger] accounts[k].address@ == a;
                    assert(indices.contains(k) && to_address(k) == a);
                }
                if indices.map(to_address).contains(a) {
                    let k = choose|k: int| indices.contains(k) && to_address(k) == a;
                    assert(accounts[k].address@ == a);
                }
            }
            assert(self@.dom() =~= indices.map(to_address));
            vstd::set_lib::lemma_map_size(indices, indices.map(to_address), to_address);
        }
        self.accounts.len()
    }

    /// Index of the account at `address`, if there is one.
    fn position(&self, address: &Pubkey) -> (r: Option<usize>)
        ensures
            match r {
                Some(i) => i < self.accounts@.len() && self.accounts@[i as int].address@ == address@,
                None => !holds_address(self.accounts@, address@),
            },
    {
        let mut i: usize = 0;
        while i < self.accounts.len()
            invariant
                i <= self.accounts@.len(),
                forall|j: int| 0 <= j < i ==> #[trigger] self.accounts@[j].address@ != address@,
            decreases self.accounts@.len() - i,
        {
            if self.accounts[i].address.same_key(address) {
                return Some(i);
            }
            i = i + 1;
        }
        None
    }

    /// Whether an account exists at `address`.
    pub fn contains(&self, address: &Pubkey) -> (r: bool)
        ensures
            r == self@.contains_key(address@),
    {
        self.position(address).is_some()
    }

    /// The record at `address`, if there is one.
    pub fn get(&self, address: &Pubkey) -> (r: Option<&ImageState>)
        ensures
            match r {
                Some(state) => self@.contains_key(address@) && self@[address@] == state@,
                None => !self@.contains_key(address@),
            },
    {
        proof { use_type_invariant(self); }
        match self.position(address) {
            Some(i) => {
                proof { lemma_records_lookup(self.accounts@, i as int); }
                Some(&self.accounts[i].state)
            },
            None => None,
        }
    }

    /// Creates an account holding `state` at `address`, in one step that
    /// either succeeds whole or changes nothing: it fails, and leaves the
    /// ledger as it was, where the address already holds an account.
    pub fn create_if_absent(&mut self, address: Pubkey, state: ImageState) -> (r: Result<(), AlreadyInUse>)
        ensures
            old(self)@.contains_key(address@) ==> r is Err && final(self)@ == old(self)@,
            !old(self)@.contains_key(address@) ==> r is Ok && final(self)@ == old(self)@.insert(address@, state@),
    {
        proof { use_type_invariant(&*self); }
        if self.position(&address).is_some() {
            return Err(AlreadyInUse);
        }
        let ghost before = self.accounts@;
        let ghost old_view = self@;
        let mut accounts: Vec<Account> = Vec::new();
        std::mem::swap(&mut accounts, &mut self.accounts);
        accounts.push(Account { address, state });
        proof {
            assert(addresses_distinct(accounts@)) by {
                assert forall|i: int, j: int|
                    0 <= i < accounts@.len() && 0 <= j < accounts@.len() && i != j
                        implies #[trigger] accounts@[i].address@ != #[trigger] accounts@[j].address@ by {
                    if i < before.len() && j < before.len() {
                        assert(before[i] == accounts@[i] && before[j] == accounts@[j]);
                    } else if i < before.len() {
                        assert(before[i] == accounts@[i]);
                    } else {
                        assert(before[j] == accounts@[j]);
                    }
                }
            }
        }
        let ghost next = accounts@;
        assert(next[before.len() as int].address@ == address@);
        proof {
            assert forall|a: Seq<u8>| #[trigger] records_of(next).contains_key(a)
                == old_view.insert(address@, state@).contains_key(a) by {
                if holds_address(before, a) {
                    let k = choose|k: int| 0 <= k < before.len() && #[trigger] before[k].address@ == a;
                    assert(next[k] == before[k]);
                }
                if holds_address(next, a) && a != address@ {
                    let k = choose|k: int| 0 <= k < next.len() && #[trigger] next[k].address@ == a;
                    assert(next[k] == before[k]);
                }
            }
            assert forall|a: Seq<u8>| #[trigger] records_of(next).contains_key(a)
                implies records_of(next)[a] == old_view.insert(address@, state@)[a] by {
                if a == address@ {
                    lemma_records_lookup(next, before.len() as int);
                } else {
                    let k = choose|k: int| 0 <= k < next.len() && #[trigger] next[k].address@ == a;
                    assert(next[k] == before[k]);
                    lemma_records_lookup(next, k);
                    lemma_records_lookup(before, k);
                }
            }
            assert(records_of(next) =~= old_view.insert(address@, state@));
        }
        *self = Ledger { accounts };
        Ok(())
    }
}

} // verus!
