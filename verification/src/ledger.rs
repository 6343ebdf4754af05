//! The balances that the engine moves funds between.

use vstd::prelude::*;
use crate::address::Address;
use crate::error::TradeError;

verus! {

/// The balance of one account, in lamports.
#[derive(Clone, Copy, Debug)]
struct Account {
    key: Address,
    lamports: u64,
}

/// Balances by address. An address that was never credited holds nothing.
///
/// The ledger as a mathematical value is a map from every address to its
/// balance. Balances are brought in by `set_balance` and `deposit`;
/// `transfer` moves funds, so the sum of all balances, the supply, never
/// changes under it.
#[derive(Clone, Debug)]
pub struct Ledger {
    accounts: Vec<Account>,
}

/// Whether some account of the list has this key.
spec fn listed(accounts: Seq<Account>, key: Seq<u8>) -> bool {
    exists|i: int| 0 <= i < accounts.len() && (#[trigger] accounts[i]).key@ == key
}

/// The place of an account with this key in the list.
spec fn slot(accounts: Seq<Account>, key: Seq<u8>) -> int {
    choose|i: int| 0 <= i < accounts.len() && (#[trigger] accounts[i]).key@ == key
}

/// What the list holds for this key.
spec fn lookup(accounts: Seq<Account>, key: Seq<u8>) -> nat {
    if listed(accounts, key) {
        accounts[slot(accounts, key)].lamports as nat
    } else {
        0
    }
}

/// No two accounts of the list have the same key.
spec fn distinct(accounts: Seq<Account>) -> bool {
    forall|i: int, j: int|
        0 <= i < accounts.len() && 0 <= j < accounts.len() && i != j ==> (
        #[trigger] accounts[i]).key@ != (#[trigger] accounts[j]).key@
}

/// The sum of the balances of the list.
spec fn sum(accounts: Seq<Account>) -> nat
    decreases accounts.len(),
{
    if accounts.len() == 0 {
        0
    } else {
        sum(accounts.drop_last()) + accounts.last().lamports as nat
    }
}

/// The balances after `amount` was added to the balance of `key`.
pub open spec fn spec_credit(balances: Map<Seq<u8>, nat>, key: Seq<u8>, amount: nat) -> Map<
    Seq<u8>,
    nat,
> {
    balances.insert(key, balances[key] + amount)
}

/// The balances after `amount` was taken from the balance of `key`, which
/// holds that much.
pub open spec fn spec_debit(balances: Map<Seq<u8>, nat>, key: Seq<u8>, amount: nat) -> Map<
    Seq<u8>,
    nat,
> {
    balances.insert(key, (balances[key] - amount) as nat)
}

/// The balances after `amount` moved from `from` to `to`.
pub open spec fn spec_transfer(
    balances: Map<Seq<u8>, nat>,
    from: Seq<u8>,
    to: Seq<u8>,
    amount: nat,
) -> Map<Seq<u8>, nat> {
    spec_credit(spec_debit(balances, from, amount), to, amount)
}

proof fn lemma_slot(accounts: Seq<Account>, i: int)
    requires
        distinct(accounts),
        0 <= i < accounts.len(),
    ensures
        listed(accounts, accounts[i].key@),
        slot(accounts, accounts[i].key@) == i,
        lookup(accounts, accounts[i].key@) == accounts[i].lamports,
{
    let key = accounts[i].key@;
    assert(listed(accounts, key));
    let j = slot(accounts, key);
    assert(0 <= j < accounts.len() && accounts[j].key@ == key);
}

proof fn lemma_unlisted(accounts: Seq<Account>, key: Seq<u8>)
    requires
        forall|i: int| 0 <= i < accounts.len() ==> (#[trigger] accounts[i]).key@ != key,
    ensures
        !listed(accounts, key),
        lookup(accounts, key) == 0,
{
}

proof fn lemma_sum_push(accounts: Seq<Account>, account: Account)
    ensures
        sum(accounts.push(account)) == sum(accounts) + account.lamports,
{
    assert(accounts.push(account).drop_last() =~= accounts);
}

proof fn lemma_sum_update(accounts: Seq<Account>, i: int, account: Account)
    requires
        0 <= i < accounts.len(),
    ensures
        sum(accounts.update(i, account)) == sum(accounts) - accounts[i].lamports
            + account.lamports,
        accounts[i].lamports <= sum(accounts),
    decreases accounts.len(),
{
    let updated = accounts.update(i, account);
    if i == accounts.len() - 1 {
        assert(updated.drop_last() =~= accounts.drop_last());
    } else {
        lemma_sum_update(accounts.drop_last(), i, account);
        assert(updated.drop_last() =~= accounts.drop_last().update(i, account));
    }
}

/// After the account at place `i` got a new balance, only its key holds
/// something else.
proof fn lemma_lookup_update(accounts: Seq<Account>, i: int, lamports: u64, key: Seq<u8>)
    requires
        distinct(accounts),
        0 <= i < accounts.len(),
    ensures
        distinct(accounts.update(i, Account { key: accounts[i].key, lamports })),
        lookup(accounts.update(i, Account { key: accounts[i].key, lamports }), key) == if key
            == accounts[i].key@ {
            lamports as nat
        } else {
            lookup(accounts, key)
        },
{
    let updated = accounts.update(i, Account { key: accounts[i].key, lamports });
    assert forall|a: int, b: int|
        0 <= a < updated.len() && 0 <= b < updated.len() && a != b implies (
    #[trigger] updated[a]).key@ != (#[trigger] updated[b]).key@ by {
        assert(updated[a].key@ == accounts[a].key@);
        assert(updated[b].key@ == accounts[b].key@);
    }
    if key == accounts[i].key@ {
        lemma_slot(updated, i);
    } else if listed(accounts, key) {
        let j = slot(accounts, key);
        assert(updated[j] == accounts[j]);
        lemma_slot(updated, j);
    } else {
        assert forall|a: int| 0 <= a < updated.len() implies (#[trigger] updated[a]).key@
            != key by {
            assert(accounts[a].key@ == updated[a].key@);
        }
        lemma_unlisted(updated, key);
    }
}

/// After an account with a key that was not listed was added, only that key
/// holds something else.
proof fn lemma_lookup_push(accounts: Seq<Account>, account: Account, key: Seq<u8>)
    requires
        distinct(accounts),
        !listed(accounts, account.key@),
    ensures
        distinct(accounts.push(account)),
        lookup(accounts.push(account), key) == if key == account.key@ {
            account.lamports as nat
        } else {
            lookup(accounts, key)
        },
{
    let pushed = accounts.push(account);
    assert forall|a: int, b: int|
        0 <= a < pushed.len() && 0 <= b < pushed.len() && a != b implies (
    #[trigger] pushed[a]).key@ != (#[trigger] pushed[b]).key@ by {
        if a < accounts.len() {
            assert(pushed[a] == accounts[a]);
        }
        if b < accounts.len() {
            assert(pushed[b] == accounts[b]);
        }
    }
    if key == account.key@ {
        lemma_slot(pushed, accounts.len() as int);
    } else if listed(accounts, key) {
        let j = slot(accounts, key);
        assert(pushed[j] == accounts[j]);
        lemma_slot(pushed, j);
    } else {
        assert forall|a: int| 0 <= a < pushed.len() implies (#[trigger] pushed[a]).key@
            != key by {
            if a < accounts.len() {
                assert(pushed[a] == accounts[a]);
            }
        }
        lemma_unlisted(pushed, key);
    }
}

impl View for Ledger {
    type V = Map<Seq<u8>, nat>;

    closed spec fn view(&self) -> Map<Seq<u8>, nat> {
        Map::total(|key: Seq<u8>| lookup(self.accounts@, key))
    }
}

impl Ledger {
    /// The ledger is well formed: it lists no address twice, and its supply
    /// fits in a `u64`.
    pub closed spec fn wf(&self) -> bool {
        &&& distinct(self.accounts@)
        &&& sum(self.accounts@) <= u64::MAX
    }

    /// The sum of all balances.
    pub closed spec fn supply(&self) -> nat {
        sum(self.accounts@)
    }

    /// A ledger in which every address holds nothing.
    pub fn new() -> (ledger: Ledger)
        ensures
            ledger.wf(),
            ledger.supply() == 0,
            ledger@ == Map::total(|key: Seq<u8>| 0nat),
    {
        let ledger = Ledger { accounts: Vec::new() };
        assert(ledger@ =~= Map::total(|key: Seq<u8>| 0nat));
        ledger
    }

    /// The view assigns a balance to every address, and none is above the
    /// supply.
    pub proof fn lemma_balances(&self, key: Seq<u8>)
        requires
            self.wf(),
        ensures
            self@.dom().contains(key),
            self@[key] <= self.supply() <= u64::MAX,
    {
        if listed(self.accounts@, key) {
            let i = slot(self.accounts@, key);
            lemma_sum_update(self.accounts@, i, self.accounts@[i]);
        }
    }

    /// Where the list holds this address, if it does.
    fn find(&self, key: &Address) -> (place: Option<usize>)
        ensures
            match place {
                Some(i) => i < self.accounts@.len() && self.accounts@[i as int].key@ == key@,
                None => !listed(self.accounts@, key@),
            },
    {
        let mut i: usize = 0;
        while i < self.accounts.len()
            invariant
                0 <= i <= self.accounts@.len(),
                forall|j: int| 0 <= j < i ==> (#[trigger] self.accounts@[j]).key@ != key@,
            decreases self.accounts@.len() - i,
        {
            if self.accounts[i].key.equals(key) {
                return Some(i);
            }
            i += 1;
        }
        proof {
            lemma_unlisted(self.accounts@, key@);
        }
        None
    }

    /// What an address holds.
    pub fn balance(&self, key: &Address) -> (lamports: u64)
        requires
            self.wf(),
        ensures
            lamports == self@[key@],
    {
        let place = self.find(key);
        self.held(place)
    }

    /// What the account at a place of the list holds; nothing where there is
    /// no place.
    fn held(&self, place: Option<usize>) -> (lamports: u64)
        requires
            self.wf(),
            place matches Some(i) ==> i < self.accounts@.len(),
        ensures
            match place {
                Some(i) => lamports == self@[self.accounts@[i as int].key@],
                None => lamports == 0,
            },
    {
        match place {
            Some(i) => {
                proof {
                    lemma_slot(self.accounts@, i as int);
                }
                self.accounts[i].lamports
            },
            None => 0,
        }
    }

    /// The supply, summed up.
    fn total(&self) -> (total: u64)
        requires
            self.wf(),
        ensures
            total == self.supply(),
    {
        let mut total: u64 = 0;
        let mut i: usize = 0;
        while i < self.accounts.len()
            invariant
                0 <= i <= self.accounts@.len(),
                self.wf(),
                total == sum(self.accounts@.take(i as int)),
            decreases self.accounts@.len() - i,
        {
            proof {
                let upto = self.accounts@.take(i as int + 1);
                assert(upto.drop_last() =~= self.accounts@.take(i as int));
                assert(upto.last() == self.accounts@[i as int]);
                lemma_sum_take(self.accounts@, i as int + 1);
            }
            total = total + self.accounts[i].lamports;
            i += 1;
        }
        assert(self.accounts@.take(i as int) =~= self.accounts@);
        total
    }

    /// Makes `lamports` the balance of `key`, at the account's place where
    /// the list has one.
    fn put(&mut self, place: Option<usize>, key: &Address, lamports: u64)
        requires
            old(self).wf(),
            old(self).supply() - old(self)@[key@] + lamports <= u64::MAX,
            match place {
                Some(i) => i < old(self).accounts@.len() && old(self).accounts@[i as int].key@
                    == key@,
                None => !listed(old(self).accounts@, key@),
            },
        ensures
            final(self).wf(),
            final(self).supply() == old(self).supply() - old(self)@[key@] + lamports,
            final(self)@ == old(self)@.insert(key@, lamports as nat),
    {
        let ghost before = self.accounts@;
        match place {
            Some(i) => {
                let account = Account { key: self.accounts[i].key, lamports };
                proof {
                    lemma_slot(before, i as int);
                }
                self.accounts.set(i, account);
                proof {
                    lemma_sum_update(before, i as int, account);
                    assert forall|k: Seq<u8>| #[trigger]
                        lookup(self.accounts@, k) == old(self)@.insert(key@, lamports as nat)[k] by {
                        lemma_lookup_update(before, i as int, lamports, k);
                    }
                    lemma_lookup_update(before, i as int, lamports, key@);
                }
            },
            None => {
                let account = Account { key: *key, lamports };
                self.accounts.push(account);
                proof {
                    lemma_sum_push(before, account);
                    assert forall|k: Seq<u8>| #[trigger]
                        lookup(self.accounts@, k) == old(self)@.insert(key@, lamports as nat)[k] by {
                        lemma_lookup_push(before, account, k);
                    }
                    lemma_lookup_push(before, account, key@);
                }
            },
        }
        assert(self@ =~= old(self)@.insert(key@, lamports as nat));
    }

    /// Makes `lamports` the balance of `key`, as when balances are brought
    /// in from outside. Where the supply would no longer fit in a `u64`,
    /// nothing changes and the result is `false`.
    pub fn set_balance(&mut self, key: &Address, lamports: u64) -> (done: bool)
        requires
            old(self).wf(),
        ensures
            final(self).wf(),
            done == (old(self).supply() - old(self)@[key@] + lamports <= u64::MAX),
            done ==> final(self)@ == old(self)@.insert(key@, lamports as nat),
            done ==> final(self).supply() == old(self).supply() - old(self)@[key@] + lamports,
            !done ==> final(self)@ == old(self)@ && final(self).supply() == old(self).supply(),
    {
        let total = self.total();
        let place = self.find(key);
        let held = self.held(place);
        proof {
            self.lemma_balances(key@);
        }
        if lamports > u64::MAX - (total - held) {
            return false;
        }
        self.put(place, key, lamports);
        true
    }

    /// Brings new funds into the ledger, to the balance of `key`. Where the
    /// supply would no longer fit in a `u64`, nothing changes and the result
    /// is `false`.
    pub fn deposit(&mut self, key: &Address, amount: u64) -> (done: bool)
        requires
            old(self).wf(),
        ensures
            final(self).wf(),
            done == (old(self).supply() + amount <= u64::MAX),
            done ==> final(self)@ == spec_credit(old(self)@, key@, amount as nat),
            done ==> final(self).supply() == old(self).supply() + amount,
            !done ==> final(self)@ == old(self)@ && final(self).supply() == old(self).supply(),
    {
        let total = self.total();
        if amount > u64::MAX - total {
            return false;
        }
        let place = self.find(key);
        let held = self.held(place);
        proof {
            self.lemma_balances(key@);
        }
        self.put(place, key, held + amount);
        true
    }

    /// Moves `amount` from `from` to `to`. Fails with `InsufficientFunds`,
    /// and changes nothing, where `from` holds less.
    pub fn transfer(&mut self, from: &Address, to: &Address, amount: u64) -> (r: Result<
        (),
        TradeError,
    >)
        requires
            old(self).wf(),
        ensures
            final(self).wf(),
            final(self).supply() == old(self).supply(),
            old(self)@[from@] >= amount ==> r is Ok && final(self)@ == spec_transfer(
                old(self)@,
                from@,
                to@,
                amount as nat,
            ),
            old(self)@[from@] < amount ==> r == Err::<(), TradeError>(
                TradeError::InsufficientFunds,
            ) && final(self)@ == old(self)@,
    {
        let source = self.find(from);
        let held = self.held(source);
        if held < amount {
            return Err(TradeError::InsufficientFunds);
        }
        if amount == 0 {
            assert(self@ =~= spec_transfer(old(self)@, from@, to@, 0));
            return Ok(());
        }
        self.put(source, from, held - amount);
        let target = self.find(to);
        let gained = self.held(target);
        proof {
            self.lemma_balances(to@);
        }
        self.put(target, to, gained + amount);
        Ok(())
    }
}

/// The sum of a prefix is no more than the sum of the whole list.
proof fn lemma_sum_take(accounts: Seq<Account>, n: int)
    requires
        0 <= n <= accounts.len(),
    ensures
        sum(accounts.take(n)) <= sum(accounts),
    decreases accounts.len(),
{
    if n == accounts.len() {
        assert(accounts.take(n) =~= accounts);
    } else {
        lemma_sum_take(accounts.drop_last(), n);
        assert(accounts.drop_last().take(n) =~= accounts.take(n));
    }
}

} // verus!
