//! The balance ledger: for each account the amount it holds, the sum of
//! what all accounts hold, and a running counter of what was deposited
//! and not withdrawn.

use crate::address::Address;
use crate::error::{amount_value, PaymasterError};
use crate::uint::{lemma_view_bounded, modulus, U256};
use vstd::prelude::*;

verus! {

/// What a ledger holds, as mathematics: a balance for every account (zero
/// for an account never seen), the sum of all balances, and the deposit
/// counter.
pub struct LedgerState {
    pub balances: Map<Address, nat>,
    pub held: int,
    pub total_deposited: nat,
}

impl LedgerState {
    /// Every account has a balance, and balances and counter fit in 256
    /// bits.
    pub open spec fn valid(self) -> bool {
        &&& forall|a: Address| self.balances.dom().contains(a)
        &&& forall|a: Address| #[trigger] self.balances[a] < modulus()
        &&& self.total_deposited < modulus()
    }

    /// The ledger in which nobody holds anything.
    pub open spec fn empty() -> LedgerState {
        LedgerState {
            balances: Map::new(|a: Address| true, |a: Address| 0nat),
            held: 0,
            total_deposited: 0,
        }
    }

    /// This ledger with the balance of `account` replaced, and the sum of
    /// all balances moved by the difference.
    pub open spec fn with_balance(self, account: Address, balance: nat) -> LedgerState {
        LedgerState {
            balances: self.balances.insert(account, balance),
            held: self.held - self.balances[account] + balance,
            ..self
        }
    }

    /// What a deposit returns: the new balance, `InvalidAmount` for a
    /// deposit of zero, `ArithmeticOverflow` where the balance or the
    /// counter would leave 256 bits.
    pub open spec fn deposit_outcome(self, account: Address, amount: nat) -> Result<
        nat,
        PaymasterError,
    > {
        if amount == 0 {
            Err(PaymasterError::InvalidAmount)
        } else if self.balances[account] + amount >= modulus() || self.total_deposited + amount
            >= modulus() {
            Err(PaymasterError::ArithmeticOverflow)
        } else {
            Ok(self.balances[account] + amount)
        }
    }

    /// The ledger after a deposit: balance and counter both grown by the
    /// amount, or nothing changed where the deposit is refused.
    pub open spec fn after_deposit(self, account: Address, amount: nat) -> LedgerState {
        if self.deposit_outcome(account, amount) is Ok {
            LedgerState {
                total_deposited: self.total_deposited + amount,
                ..self.with_balance(account, self.balances[account] + amount)
            }
        } else {
            self
        }
    }

    /// What taking `amount` out of `account` returns: the remainder, or
    /// `InsufficientBalance` where the account holds less.
    pub open spec fn take_outcome(self, account: Address, amount: nat) -> Result<
        nat,
        PaymasterError,
    > {
        if self.balances[account] < amount {
            Err(PaymasterError::InsufficientBalance)
        } else {
            Ok((self.balances[account] - amount) as nat)
        }
    }

    /// The ledger after a withdrawal: the balance shrunk by the amount and
    /// the counter too, stopping at zero; nothing changed where the
    /// withdrawal is refused.
    pub open spec fn after_withdraw(self, account: Address, amount: nat) -> LedgerState {
        if self.take_outcome(account, amount) is Ok {
            LedgerState {
                total_deposited: if self.total_deposited >= amount {
                    (self.total_deposited - amount) as nat
                } else {
                    0
                },
                ..self.with_balance(account, (self.balances[account] - amount) as nat)
            }
        } else {
            self
        }
    }

    /// The ledger after a deduction: the balance shrunk by the amount, the
    /// counter untouched; nothing changed where the deduction is refused.
    pub open spec fn after_deduct(self, account: Address, amount: nat) -> LedgerState {
        if self.take_outcome(account, amount) is Ok {
            self.with_balance(account, (self.balances[account] - amount) as nat)
        } else {
            self
        }
    }

    /// What a credit returns: the new balance, or `ArithmeticOverflow`
    /// where it would leave 256 bits.
    pub open spec fn credit_outcome(self, account: Address, amount: nat) -> Result<
        nat,
        PaymasterError,
    > {
        if self.balances[account] + amount >= modulus() {
            Err(PaymasterError::ArithmeticOverflow)
        } else {
            Ok(self.balances[account] + amount)
        }
    }

    /// The ledger after a credit: the balance grown by the amount, the
    /// counter untouched; nothing changed where the credit is refused.
    pub open spec fn after_credit(self, account: Address, amount: nat) -> LedgerState {
        if self.credit_outcome(account, amount) is Ok {
            self.with_balance(account, self.balances[account] + amount)
        } else {
            self
        }
    }
}

/// One account and what it holds.
#[derive(Clone, Copy, Debug)]
struct Entry {
    account: Address,
    balance: U256,
}

/// Whether entry `i` is the entry of `account`.
spec fn listed_in(entries: Seq<Entry>, account: Address, i: int) -> bool {
    0 <= i < entries.len() && entries[i].account == account
}

/// The sum of the balances of all entries.
spec fn sum_of(entries: Seq<Entry>) -> nat
    decreases entries.len(),
{
    if entries.len() == 0 {
        0
    } else {
        sum_of(entries.drop_last()) + entries.last().balance@
    }
}

/// A new entry adds its balance to the sum.
proof fn lemma_sum_push(entries: Seq<Entry>, entry: Entry)
    ensures
        sum_of(entries.push(entry)) == sum_of(entries) + entry.balance@,
{
    assert(entries.push(entry).drop_last() =~= entries);
}

/// No entry holds more than the sum, and replacing an entry moves the
/// sum by the difference of the balances.
proof fn lemma_sum_update(entries: Seq<Entry>, i: int, entry: Entry)
    requires
        0 <= i < entries.len(),
    ensures
        entries[i].balance@ <= sum_of(entries),
        sum_of(entries.update(i, entry)) == sum_of(entries) - entries[i].balance@ + entry.balance@,
    decreases entries.len(),
{
    if i == entries.len() - 1 {
        assert(entries.update(i, entry).drop_last() =~= entries.drop_last());
    } else {
        lemma_sum_update(entries.drop_last(), i, entry);
        assert(entries.update(i, entry).drop_last() =~= entries.drop_last().update(i, entry));
    }
}

/// The sum over the first `n` entries grows entry by entry and never
/// exceeds the sum over all.
proof fn lemma_sum_of_prefix(entries: Seq<Entry>, n: int)
    requires
        0 <= n <= entries.len(),
    ensures
        sum_of(entries.take(n)) <= sum_of(entries),
        n < entries.len() ==> sum_of(entries.take(n + 1)) == sum_of(entries.take(n))
            + entries[n].balance@,
    decreases entries.len() - n,
{
    if n < entries.len() {
        assert(entries.take(n + 1).drop_last() =~= entries.take(n));
        lemma_sum_of_prefix(entries, n + 1);
    } else {
        assert(entries.take(n) =~= entries);
    }
}

/// What `account` holds: the balance of its entry, or zero without one.
spec fn held_in(entries: Seq<Entry>, account: Address) -> nat {
    if exists|i: int| listed_in(entries, account, i) {
        entries[choose|i: int| listed_in(entries, account, i)].balance@
    } else {
        0
    }
}

/// The balance ledger. An account appears at most once; one that does not
/// appear holds zero. A ledger may be a window on a larger one: it then
/// lists some accounts only and carries the sum of what the others hold.
#[derive(Debug)]
pub struct BalanceLedger {
    entries: Vec<Entry>,
    elsewhere: U256,
    total_deposited: U256,
}

impl View for BalanceLedger {
    type V = LedgerState;

    closed spec fn view(&self) -> LedgerState {
        LedgerState {
            balances: Map::new(|a: Address| true, |a: Address| self.held_by(a)),
            held: (self.elsewhere@ + sum_of(self.entries@)) as int,
            total_deposited: self.total_deposited@,
        }
    }
}

impl BalanceLedger {
    /// No account appears twice.
    pub closed spec fn wf(&self) -> bool {
        forall|i: int, j: int|
            0 <= i < j < self.entries.len() ==> self.entries[i].account != self.entries[j].account
    }

    spec fn held_by(&self, account: Address) -> nat {
        held_in(self.entries@, account)
    }

    /// The view of a ledger is a valid ledger state, in which the sum of
    /// all balances is not negative and no account holds more than it.
    pub proof fn lemma_view_valid(&self)
        ensures
            self@.valid(),
            0 <= self@.held,
            forall|a: Address| #[trigger] self@.balances[a] <= self@.held,
    {
        lemma_view_bounded(self.total_deposited);
        assert forall|a: Address| #[trigger]
            self@.balances[a] < modulus() && self@.balances[a] <= self@.held by {
            if exists|i: int| listed_in(self.entries@, a, i) {
                let i = choose|i: int| listed_in(self.entries@, a, i);
                lemma_view_bounded(self.entries[i].balance);
                lemma_sum_update(self.entries@, i, self.entries[i]);
            }
        }
    }

    /// A ledger in which nobody holds anything.
    pub fn new() -> (r: BalanceLedger)
        ensures
            r.wf(),
            r@ == LedgerState::empty(),
    {
        let r = BalanceLedger {
            entries: Vec::new(),
            elsewhere: U256::zero(),
            total_deposited: U256::zero(),
        };
        assert(r@.balances =~= LedgerState::empty().balances);
        r
    }

    /// A window on a larger ledger: it lists `account` with `balance` and
    /// no other account, the sum of all balances of the larger ledger is
    /// `held`, and its deposit counter stands at `total_deposited`. `None`
    /// where the account would hold more than the sum of all.
    pub fn window(total_deposited: U256, held: U256, account: Address, balance: U256) -> (r:
        Option<BalanceLedger>)
        ensures
            r is Some <==> balance@ <= held@,
            r is Some ==> r->0.wf() && r->0@ == (LedgerState {
                balances: LedgerState::empty().balances.insert(account, balance@),
                held: held@ as int,
                total_deposited: total_deposited@,
            }),
    {
        let elsewhere = match held.checked_sub(balance) {
            Some(v) => v,
            None => { return None; },
        };
        let mut r = BalanceLedger { entries: Vec::new(), elsewhere, total_deposited };
        assert(r@.balances =~= LedgerState::empty().balances);
        r.set_balance(account, balance);
        Some(r)
    }

    fn position(&self, account: &Address) -> (r: Option<usize>)
        ensures
            match r {
                Some(i) => listed_in(self.entries@, *account, i as int),
                None => forall|i: int| !listed_in(self.entries@, *account, i),
            },
    {
        let mut i: usize = 0;
        while i < self.entries.len()
            invariant
                i <= self.entries.len(),
                forall|j: int| 0 <= j < i ==> !listed_in(self.entries@, *account, j),
            decreases self.entries.len() - i,
        {
            if self.entries[i].account.equals(account) {
                return Some(i);
            }
            i += 1;
        }
        None
    }

    /// What `account` holds.
    pub fn balance_of(&self, account: &Address) -> (r: U256)
        requires
            self.wf(),
        ensures
            r@ == self@.balances[*account],
    {
        match self.position(account) {
            Some(i) => {
                proof {
                    self.lemma_held_where_listed(*account, i as int);
                }
                self.entries[i].balance
            },
            None => U256::zero(),
        }
    }

    /// The sum of what all accounts hold, or `ArithmeticOverflow` where it
    /// does not fit in 256 bits.
    pub fn total_held(&self) -> (r: Result<U256, PaymasterError>)
        ensures
            0 <= self@.held,
            amount_value(r) == (if self@.held < modulus() {
                Ok::<nat, PaymasterError>(self@.held as nat)
            } else {
                Err(PaymasterError::ArithmeticOverflow)
            }),
    {
        let mut sum = self.elsewhere;
        let mut i: usize = 0;
        proof {
            lemma_sum_of_prefix(self.entries@, 0);
        }
        while i < self.entries.len()
            invariant
                i <= self.entries.len(),
                sum@ == self.elsewhere@ + sum_of(self.entries@.take(i as int)),
            decreases self.entries.len() - i,
        {
            proof {
                lemma_sum_of_prefix(self.entries@, i as int);
                lemma_sum_of_prefix(self.entries@, i as int + 1);
            }
            sum = match sum.checked_add(self.entries[i].balance) {
                Some(v) => v,
                None => { return Err(PaymasterError::ArithmeticOverflow); },
            };
            i += 1;
        }
        proof {
            assert(self.entries@.take(i as int) =~= self.entries@);
            lemma_view_bounded(sum);
        }
        Ok(sum)
    }

    /// The deposit counter.
    pub fn total_deposited(&self) -> (r: U256)
        ensures
            r@ == self@.total_deposited,
    {
        self.total_deposited
    }

    /// The entry of an account is the only one, so it says what the
    /// account holds.
    proof fn lemma_held_where_listed(&self, account: Address, i: int)
        requires
            self.wf(),
            listed_in(self.entries@, account, i),
        ensures
            self.held_by(account) == self.entries[i].balance@,
    {
        let k = choose|k: int| listed_in(self.entries@, account, k);
        assert(listed_in(self.entries@, account, k));
        assert(k == i);
    }

    fn set_balance(&mut self, account: Address, balance: U256)
        requires
            old(self).wf(),
        ensures
            final(self).wf(),
            final(self)@ == old(self)@.with_balance(account, balance@),
    {
        let entry = Entry { account, balance };
        let ghost before = *self;
        let ghost n = before.entries.len() as int;
        let found = self.position(&account);
        let ghost at = match found {
            Some(i) => i as int,
            None => n,
        };
        match found {
            Some(i) => {
                self.entries.set(i, entry);
            },
            None => {
                self.entries.push(entry);
            },
        }
        proof {
            match found {
                Some(i) => {
                    before.lemma_held_where_listed(account, at);
                    lemma_sum_update(before.entries@, at, entry);
                },
                None => {
                    lemma_sum_push(before.entries@, entry);
                },
            }
            assert(self.entries[at] == entry);
            assert forall|k: int| 0 <= k < n && k != at implies self.entries[k]
                == before.entries[k] by {}
            assert forall|k: int| 0 <= k < n implies self.entries[k].account
                == before.entries[k].account by {}
            assert(self.wf()) by {
                assert forall|i: int, j: int| 0 <= i < j < self.entries.len() implies self.entries[i].account
                    != self.entries[j].account by {
                    if j == n {
                        assert(!listed_in(before.entries@, account, i));
                    }
                }
            }
            assert forall|a: Address| self.held_by(a) == (if a == account {
                balance@
            } else {
                before.held_by(a)
            }) by {
                if a == account {
                    assert(listed_in(self.entries@, a, at));
                    self.lemma_held_where_listed(a, at);
                } else if exists|k: int| listed_in(before.entries@, a, k) {
                    let k = choose|k: int| listed_in(before.entries@, a, k);
                    assert(listed_in(before.entries@, a, k));
                    assert(listed_in(self.entries@, a, k));
                    self.lemma_held_where_listed(a, k);
                } else {
                    assert forall|k: int| !listed_in(self.entries@, a, k) by {
                        if listed_in(self.entries@, a, k) {
                            assert(k != at);
                            assert(listed_in(before.entries@, a, k));
                        }
                    }
                }
            }
            assert(self@.balances =~= before@.with_balance(account, balance@).balances);
        }
    }

    fn set_total(&mut self, total: U256)
        requires
            old(self).wf(),
        ensures
            final(self).wf(),
            final(self)@ == (LedgerState { total_deposited: total@, ..old(self)@ }),
    {
        let ghost before = *self;
        self.total_deposited = total;
        proof {
            assert(self@.balances =~= before@.balances);
        }
    }

    /// What a deposit of `amount` to `account` would return, without
    /// making it.
    pub fn check_deposit(&self, account: &Address, amount: U256) -> (r: Result<
        U256,
        PaymasterError,
    >)
        requires
            self.wf(),
        ensures
            amount_value(r) == self@.deposit_outcome(*account, amount@),
    {
        if amount.is_zero() {
            return Err(PaymasterError::InvalidAmount);
        }
        let raised = match self.balance_of(account).checked_add(amount) {
            Some(v) => v,
            None => { return Err(PaymasterError::ArithmeticOverflow); },
        };
        match self.total_deposited.checked_add(amount) {
            Some(_) => Ok(raised),
            None => Err(PaymasterError::ArithmeticOverflow),
        }
    }

    /// Adds `amount` to what `account` holds and to the deposit counter,
    /// and returns the new balance.
    pub fn deposit(&mut self, account: Address, amount: U256) -> (r: Result<U256, PaymasterError>)
        requires
            old(self).wf(),
        ensures
            final(self).wf(),
            amount_value(r) == old(self)@.deposit_outcome(account, amount@),
            final(self)@ == old(self)@.after_deposit(account, amount@),
    {
        let raised = match self.check_deposit(&account, amount) {
            Ok(v) => v,
            Err(e) => { return Err(e); },
        };
        let total = match self.total_deposited.checked_add(amount) {
            Some(v) => v,
            None => { return Err(PaymasterError::ArithmeticOverflow); },
        };
        self.set_balance(account, raised);
        self.set_total(total);
        Ok(raised)
    }

    /// What taking `amount` out of `account` would return, without taking
    /// it.
    pub fn check_take(&self, account: &Address, amount: U256) -> (r: Result<U256, PaymasterError>)
        requires
            self.wf(),
        ensures
            amount_value(r) == self@.take_outcome(*account, amount@),
    {
        match self.balance_of(account).checked_sub(amount) {
            Some(v) => Ok(v),
            None => Err(PaymasterError::InsufficientBalance),
        }
    }

    /// Takes `amount` out of what `account` holds and out of the deposit
    /// counter, which stops at zero, and returns the new balance.
    pub fn withdraw(&mut self, account: Address, amount: U256) -> (r: Result<U256, PaymasterError>)
        requires
            old(self).wf(),
        ensures
            final(self).wf(),
            amount_value(r) == old(self)@.take_outcome(account, amount@),
            final(self)@ == old(self)@.after_withdraw(account, amount@),
    {
        let lowered = match self.check_take(&account, amount) {
            Ok(v) => v,
            Err(e) => { return Err(e); },
        };
        self.set_balance(account, lowered);
        let total = self.total_deposited.saturating_sub(amount);
        self.set_total(total);
        Ok(lowered)
    }

    /// Checks that `account` holds `amount` and takes it out in one step;
    /// the deposit counter stays. Returns the remainder.
    pub fn try_deduct(&mut self, account: Address, amount: U256) -> (r: Result<
        U256,
        PaymasterError,
    >)
        requires
            old(self).wf(),
        ensures
            final(self).wf(),
            amount_value(r) == old(self)@.take_outcome(account, amount@),
            final(self)@ == old(self)@.after_deduct(account, amount@),
    {
        let lowered = match self.check_take(&account, amount) {
            Ok(v) => v,
            Err(e) => { return Err(e); },
        };
        self.set_balance(account, lowered);
        Ok(lowered)
    }

    /// Gives `amount` back to `account`; the deposit counter stays.
    /// Returns the new balance.
    pub fn credit(&mut self, account: Address, amount: U256) -> (r: Result<U256, PaymasterError>)
        requires
            old(self).wf(),
        ensures
            final(self).wf(),
            amount_value(r) == old(self)@.credit_outcome(account, amount@),
            final(self)@ == old(self)@.after_credit(account, amount@),
    {
        let raised = match self.balance_of(&account).checked_add(amount) {
            Some(v) => v,
            None => { return Err(PaymasterError::ArithmeticOverflow); },
        };
        self.set_balance(account, raised);
        Ok(raised)
    }
}

} // verus!
