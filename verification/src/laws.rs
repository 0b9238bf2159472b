//! What holds of the paymaster across calls, proved over its states.

use crate::address::Address;
use crate::error::PaymasterError;
use crate::ledger::LedgerState;
use crate::state::{LedgerCall, State};
use crate::uint::modulus;
use vstd::prelude::*;

verus! {

/// In a valid state no balance is negative, and none leaves 256 bits.
pub proof fn lemma_balance_never_negative(s: State, account: Address)
    requires
        s.valid(),
    ensures
        0 <= s.balance(account) < modulus(),
{
}

/// In a valid state the sum of all balances does not exceed the deposit
/// counter: what the accounts hold together is never more than what was
/// deposited and not withdrawn.
pub proof fn lemma_held_within_deposits(s: State)
    requires
        s.valid(),
    ensures
        s.ledger.held <= s.ledger.total_deposited < modulus(),
{
}

/// Every ledger primitive takes a valid ledger to a valid ledger, so the
/// bounds on balances hold at all times.
pub proof fn lemma_ledger_stays_valid(l: LedgerState, account: Address, amount: nat)
    requires
        l.valid(),
    ensures
        l.after_deposit(account, amount).valid(),
        l.after_withdraw(account, amount).valid(),
        l.after_deduct(account, amount).valid(),
        l.after_credit(account, amount).valid(),
{
    let deposited = l.after_deposit(account, amount);
    assert forall|a: Address| #[trigger] deposited.balances[a] < modulus() by {
        assert(l.balances[a] < modulus());
    }
    let withdrawn = l.after_withdraw(account, amount);
    assert forall|a: Address| #[trigger] withdrawn.balances[a] < modulus() by {
        assert(l.balances[a] < modulus());
    }
    let deducted = l.after_deduct(account, amount);
    assert forall|a: Address| #[trigger] deducted.balances[a] < modulus() by {
        assert(l.balances[a] < modulus());
    }
    let credited = l.after_credit(account, amount);
    assert forall|a: Address| #[trigger] credited.balances[a] < modulus() by {
        assert(l.balances[a] < modulus());
    }
}

/// The sum of all balances moves by exactly the amount of each deposit,
/// withdrawal, deduction and credit that is accepted, and not at all
/// where one is refused.
pub proof fn lemma_ledger_moves_the_sum(l: LedgerState, account: Address, amount: nat)
    ensures
        l.after_deposit(account, amount).held == l.held + (if l.deposit_outcome(account, amount)
            is Ok {
            amount as int
        } else {
            0
        }),
        l.after_withdraw(account, amount).held == l.held - (if l.take_outcome(account, amount)
            is Ok {
            amount as int
        } else {
            0
        }),
        l.after_deduct(account, amount).held == l.held - (if l.take_outcome(account, amount)
            is Ok {
            amount as int
        } else {
            0
        }),
        l.after_credit(account, amount).held == l.held + (if l.credit_outcome(account, amount)
            is Ok {
            amount as int
        } else {
            0
        }),
{
}

/// Of the entry points only an accepted deposit, withdrawal or validation
/// moves the sum of all balances: up by the amount deposited, down by the
/// amount withdrawn, down by the cost reserved. Settlement and the
/// owner's operations leave the ledger as it is.
pub proof fn lemma_entry_points_move_the_sum(
    s: State,
    caller: Address,
    account: Address,
    amount: nat,
    flag: bool,
)
    ensures
        s.deposit_outcome(account, amount, true) is Ok ==> s.after_deposit(
            account,
            amount,
            true,
        ).ledger.held == s.ledger.held + amount,
        s.withdraw_outcome(account, amount, true) is Ok ==> s.after_withdraw(
            account,
            amount,
            true,
        ).ledger.held == s.ledger.held - amount,
        s.validate_outcome(caller, account, amount) is Ok ==> s.after_validate(
            caller,
            account,
            amount,
        ).ledger.held == s.ledger.held - s.cost_of(amount)->Ok_0,
        s.after_initialize(caller, account, account, amount).ledger == s.ledger,
        s.after_set_paused(caller, flag).ledger == s.ledger,
        s.after_set_price_ref(caller, amount).ledger == s.ledger,
        s.after_set_surcharge(caller, amount).ledger == s.ledger,
        s.after_set_authorized_caller(caller, account).ledger == s.ledger,
        s.after_transfer_ownership(caller, account).ledger == s.ledger,
{
}

/// Every entry point takes a valid state to a valid state.
pub proof fn lemma_state_stays_valid(
    s: State,
    caller: Address,
    account: Address,
    amount: nat,
    transferred: bool,
    flag: bool,
)
    requires
        s.valid(),
        amount < modulus(),
    ensures
        s.after_initialize(caller, account, account, amount).valid(),
        s.after_deposit(account, amount, transferred).valid(),
        s.after_withdraw(account, amount, transferred).valid(),
        s.after_validate(caller, account, amount).valid(),
        s.after_set_paused(caller, flag).valid(),
        s.after_set_price_ref(caller, amount).valid(),
        s.after_set_surcharge(caller, amount).valid(),
        s.after_set_authorized_caller(caller, account).valid(),
        s.after_transfer_ownership(caller, account).valid(),
{
    lemma_ledger_stays_valid(s.ledger, account, amount);
    if s.cost_of(amount) is Ok {
        lemma_ledger_stays_valid(s.ledger, account, s.cost_of(amount)->Ok_0);
    }
}

/// A deposit followed by a withdrawal of the same amount from the same
/// account succeeds, returns the balance from before the deposit, and
/// leaves the whole state as it was before the deposit.
pub proof fn lemma_deposit_then_withdraw_restores(s: State, account: Address, amount: nat)
    requires
        s.valid(),
        s.deposit_outcome(account, amount, true) is Ok,
    ensures
        s.after_deposit(account, amount, true).withdraw_outcome(account, amount, true) == Ok::<
            nat,
            PaymasterError,
        >(s.balance(account)),
        s.after_deposit(account, amount, true).after_withdraw(account, amount, true) == s,
{
    let mid = s.after_deposit(account, amount, true);
    let end = mid.after_withdraw(account, amount, true);
    assert(end.ledger.balances =~= s.ledger.balances);
}

/// A successful validation takes exactly the converted cost out of the
/// sender's balance and touches no other balance; a failed one leaves
/// the whole state as it was.
pub proof fn lemma_validate_charges_exactly(s: State, caller: Address, sender: Address, max_cost: nat)
    requires
        s.valid(),
    ensures
        s.validate_outcome(caller, sender, max_cost) is Ok ==> {
            &&& s.cost_of(max_cost) is Ok
            &&& s.validate_outcome(caller, sender, max_cost) == s.cost_of(max_cost)
            &&& s.after_validate(caller, sender, max_cost).balance(sender) == s.balance(sender)
                - s.cost_of(max_cost)->Ok_0
            &&& forall|other: Address|
                other != sender ==> s.after_validate(caller, sender, max_cost).balance(other)
                    == s.balance(other)
        },
        s.validate_outcome(caller, sender, max_cost) is Err ==> s.after_validate(
            caller,
            sender,
            max_cost,
        ) == s,
{
}

/// Two validations in a row both succeed only where the sender held the
/// sum of the two costs, and together they take exactly that sum: nothing
/// reserved once can be reserved again.
pub proof fn lemma_no_double_spend(
    s: State,
    caller: Address,
    sender: Address,
    first_cost: nat,
    second_cost: nat,
)
    requires
        s.valid(),
        s.validate_outcome(caller, sender, first_cost) is Ok,
        s.after_validate(caller, sender, first_cost).validate_outcome(caller, sender, second_cost)
            is Ok,
    ensures
        ({
            let first = s.validate_outcome(caller, sender, first_cost)->Ok_0;
            let mid = s.after_validate(caller, sender, first_cost);
            let second = mid.validate_outcome(caller, sender, second_cost)->Ok_0;
            &&& second == s.cost_of(second_cost)->Ok_0
            &&& s.balance(sender) >= first + second
            &&& mid.after_validate(caller, sender, second_cost).balance(sender) == s.balance(sender)
                - first - second
        }),
{
}

/// A refused call changes nothing, whichever entry point refuses it.
pub proof fn lemma_refusal_changes_nothing(
    s: State,
    caller: Address,
    account: Address,
    amount: nat,
    transferred: bool,
    flag: bool,
)
    ensures
        s.initialize_outcome(caller, account) is Err ==> s.after_initialize(
            caller,
            account,
            account,
            amount,
        ) == s,
        s.deposit_outcome(account, amount, transferred) is Err ==> s.after_deposit(
            account,
            amount,
            transferred,
        ) == s,
        s.withdraw_outcome(account, amount, transferred) is Err ==> s.after_withdraw(
            account,
            amount,
            transferred,
        ) == s,
        s.validate_outcome(caller, account, amount) is Err ==> s.after_validate(
            caller,
            account,
            amount,
        ) == s,
        s.owner_check(caller) is Err ==> {
            &&& s.after_set_paused(caller, flag) == s
            &&& s.after_set_price_ref(caller, amount) == s
            &&& s.after_set_surcharge(caller, amount) == s
            &&& s.after_set_authorized_caller(caller, account) == s
        },
        s.transfer_ownership_outcome(caller, account) is Err ==> s.after_transfer_ownership(
            caller,
            account,
        ) == s,
{
}

/// An account that holds less than the converted cost is refused with
/// `InsufficientBalance`, where nothing else is in the way.
pub proof fn lemma_validate_insufficient(s: State, sender: Address, max_cost: nat)
    requires
        s.valid(),
        s.open_for_business() is Ok,
        s.cost_of(max_cost) is Ok,
        s.balance(sender) < s.cost_of(max_cost)->Ok_0,
    ensures
        s.validate_outcome(s.config.authorized_caller, sender, max_cost) == Err::<
            nat,
            PaymasterError,
        >(PaymasterError::InsufficientBalance),
        s.after_validate(s.config.authorized_caller, sender, max_cost) == s,
{
}

/// Owner-only entry points refuse every caller but the owner with
/// `Unauthorized` and then change nothing; where one succeeds, the caller
/// is the owner.
pub proof fn lemma_only_owner_administers(
    s: State,
    caller: Address,
    identity: Address,
    value: nat,
    flag: bool,
)
    ensures
        caller != s.config.owner ==> {
            &&& s.owner_check(caller) == Err::<(), PaymasterError>(PaymasterError::Unauthorized)
            &&& s.transfer_ownership_outcome(caller, identity) == Err::<(), PaymasterError>(
                PaymasterError::Unauthorized,
            )
            &&& s.after_set_paused(caller, flag) == s
            &&& s.after_set_price_ref(caller, value) == s
            &&& s.after_set_surcharge(caller, value) == s
            &&& s.after_set_authorized_caller(caller, identity) == s
            &&& s.after_transfer_ownership(caller, identity) == s
        },
        s.owner_check(caller) is Ok ==> caller == s.config.owner,
        s.transfer_ownership_outcome(caller, identity) is Ok ==> caller == s.config.owner,
{
}

/// Before setup, initialization refuses every caller but the owner it is
/// asked to install with `Unauthorized` and then changes nothing; where
/// it succeeds, the caller is the owner from then on.
pub proof fn lemma_only_owner_initializes(
    s: State,
    caller: Address,
    owner: Address,
    authorized_caller: Address,
    price_ref: nat,
)
    ensures
        !s.config.initialized && caller != owner ==> {
            &&& s.initialize_outcome(caller, owner) == Err::<(), PaymasterError>(
                PaymasterError::Unauthorized,
            )
            &&& s.after_initialize(caller, owner, authorized_caller, price_ref) == s
        },
        s.initialize_outcome(caller, owner) is Ok ==> s.after_initialize(
            caller,
            owner,
            authorized_caller,
            price_ref,
        ).config.owner == caller,
{
}

/// The configuration is created exactly once: on a paymaster that is set
/// up, and so after every successful initialization, a further one fails
/// `AlreadyInitialized`, whoever calls and whatever it asks for, and
/// changes nothing.
pub proof fn lemma_initialized_once(
    s: State,
    caller: Address,
    owner: Address,
    authorized_caller: Address,
    price_ref: nat,
    next_caller: Address,
    next_owner: Address,
    next_authorized_caller: Address,
    next_price_ref: nat,
)
    ensures
        s.config.initialized ==> {
            &&& s.initialize_outcome(caller, owner) == Err::<(), PaymasterError>(
                PaymasterError::AlreadyInitialized,
            )
            &&& s.after_initialize(caller, owner, authorized_caller, price_ref) == s
        },
        s.initialize_outcome(caller, owner) is Ok ==> ({
            let set_up = s.after_initialize(caller, owner, authorized_caller, price_ref);
            &&& set_up.initialize_outcome(next_caller, next_owner) == Err::<(), PaymasterError>(
                PaymasterError::AlreadyInitialized,
            )
            &&& set_up.after_initialize(
                next_caller,
                next_owner,
                next_authorized_caller,
                next_price_ref,
            ) == set_up
        }),
{
}

/// Validation and settlement refuse every caller but the dispatcher with
/// `Unauthorized`, whatever the flags and the balances, and then change
/// nothing; where one succeeds, the caller is the dispatcher.
pub proof fn lemma_only_dispatcher_validates(
    s: State,
    caller: Address,
    sender: Address,
    max_cost: nat,
)
    ensures
        caller != s.config.authorized_caller ==> {
            &&& s.validate_outcome(caller, sender, max_cost) == Err::<nat, PaymasterError>(
                PaymasterError::Unauthorized,
            )
            &&& s.settle_outcome(caller) == Err::<(), PaymasterError>(PaymasterError::Unauthorized)
            &&& s.after_validate(caller, sender, max_cost) == s
        },
        s.validate_outcome(caller, sender, max_cost) is Ok ==> caller
            == s.config.authorized_caller,
        s.settle_outcome(caller) is Ok ==> caller == s.config.authorized_caller,
{
}

/// While the paymaster is paused, deposits and withdrawals fail
/// `ContractPaused` whatever the arguments, and so does validation
/// called by the dispatcher; any other caller of validation is refused
/// as `Unauthorized` before the pause flag is looked at. None of them
/// changes anything.
pub proof fn lemma_paused_refuses(
    s: State,
    caller: Address,
    account: Address,
    amount: nat,
    transferred: bool,
)
    requires
        s.valid(),
        s.config.paused,
    ensures
        s.deposit_outcome(account, amount, transferred) == Err::<nat, PaymasterError>(
            PaymasterError::ContractPaused,
        ),
        s.withdraw_outcome(account, amount, transferred) == Err::<nat, PaymasterError>(
            PaymasterError::ContractPaused,
        ),
        s.validate_outcome(s.config.authorized_caller, account, amount) == Err::<
            nat,
            PaymasterError,
        >(PaymasterError::ContractPaused),
        s.validate_outcome(caller, account, amount) is Err,
        s.after_deposit(account, amount, transferred) == s,
        s.after_withdraw(account, amount, transferred) == s,
        s.after_validate(caller, account, amount) == s,
{
}

/// While the paymaster is paused, any run of deposits, withdrawals and
/// validations, however long, leaves the state as it is, and each call
/// made after it is refused.
pub proof fn lemma_paused_run_changes_nothing(s: State, calls: Seq<LedgerCall>, next: LedgerCall)
    requires
        s.valid(),
        s.config.paused,
    ensures
        s.after_calls(calls) == s,
        s.after_calls(calls).refuses(next),
    decreases calls.len(),
{
    if calls.len() > 0 {
        lemma_paused_run_changes_nothing(s, calls.drop_last(), calls.last());
    }
}

/// Pause by the owner, any run of deposits, withdrawals and validations,
/// then unpause by the owner: the state is the one from before the
/// pause, field for field, and so is the behaviour of every later call.
pub proof fn lemma_pause_run_unpause_restores(s: State, owner: Address, calls: Seq<LedgerCall>)
    requires
        s.valid(),
        !s.config.paused,
        s.owner_check(owner) is Ok,
    ensures
        s.after_set_paused(owner, true).after_calls(calls).after_set_paused(owner, false) == s,
{
    lemma_paused_run_changes_nothing(
        s.after_set_paused(owner, true),
        calls,
        LedgerCall::Deposit { account: owner, amount: 0, transferred: false },
    );
}

/// Pausing changes the pause flag and nothing else, so every query
/// answers while paused as it did before.
pub proof fn lemma_pause_keeps_answers(s: State, owner: Address, account: Address, cost: nat)
    ensures
        s.after_set_paused(owner, true).ledger == s.ledger,
        s.after_set_paused(owner, true).balance(account) == s.balance(account),
        s.after_set_paused(owner, true).can_sponsor(account, cost) == s.can_sponsor(account, cost),
        s.after_set_paused(owner, true).config.owner == s.config.owner,
        s.after_set_paused(owner, true).config.price_ref == s.config.price_ref,
        s.after_set_paused(owner, true).config.surcharge_bps == s.config.surcharge_bps,
{
}

/// Pausing and then unpausing a running paymaster gives back the state
/// from before, and with it the behaviour of every entry point.
pub proof fn lemma_unpause_restores(s: State, owner: Address)
    requires
        !s.config.paused,
    ensures
        s.after_set_paused(owner, true).after_set_paused(owner, false) == s,
{
}

} // verus!
