//! The paymaster as mathematics: its configuration, its ledger, and for
//! each entry point what a call returns and what it leaves behind.

use crate::address::{null_bytes, Address};
use crate::error::PaymasterError;
use crate::ledger::LedgerState;
use crate::price::convert_outcome;
use crate::uint::modulus;
use vstd::prelude::*;

verus! {

/// The surcharge a freshly initialized paymaster applies: 10%.
pub const DEFAULT_SURCHARGE_BPS: u64 = 1000;

/// The configuration, as mathematics.
pub struct ConfigState {
    pub owner: Address,
    pub authorized_caller: Address,
    pub price_ref: nat,
    pub surcharge_bps: nat,
    pub paused: bool,
    pub initialized: bool,
}

/// A call of one of the entry points that move the ledger, with its
/// arguments.
pub enum LedgerCall {
    Deposit { account: Address, amount: nat, transferred: bool },
    Withdraw { account: Address, amount: nat, transferred: bool },
    Validate { caller: Address, sender: Address, max_cost: nat },
}

/// The whole paymaster, as mathematics.
pub struct State {
    pub config: ConfigState,
    pub ledger: LedgerState,
}

impl State {
    /// The ledger is valid, the sum of all balances does not exceed the
    /// deposit counter, the configured numbers fit in 256 bits, and only
    /// an initialized paymaster is ever paused.
    pub open spec fn valid(self) -> bool {
        &&& self.ledger.valid()
        &&& self.ledger.held <= self.ledger.total_deposited
        &&& self.config.price_ref < modulus()
        &&& self.config.surcharge_bps < modulus()
        &&& self.config.paused ==> self.config.initialized
    }

    /// The state before setup: owner and dispatcher are the null identity,
    /// price reference and surcharge are zero, the paymaster is neither
    /// initialized nor paused, and nobody holds anything.
    pub open spec fn before_setup(self) -> bool {
        &&& self.config.owner@ == null_bytes()
        &&& self.config.authorized_caller@ == null_bytes()
        &&& self.config.price_ref == 0
        &&& self.config.surcharge_bps == 0
        &&& !self.config.paused
        &&& !self.config.initialized
        &&& self.ledger == LedgerState::empty()
    }

    /// What `account` holds.
    pub open spec fn balance(self, account: Address) -> nat {
        self.ledger.balances[account]
    }

    /// The cost in the stable asset of a native fee at the configured
    /// price and surcharge.
    pub open spec fn cost_of(self, native_fee: nat) -> Result<nat, PaymasterError> {
        convert_outcome(native_fee, self.config.price_ref, self.config.surcharge_bps)
    }

    /// The checks on the flags that deposits, withdrawals and validation
    /// make: `NotInitialized` before setup, then `ContractPaused` while
    /// paused.
    pub open spec fn open_for_business(self) -> Result<(), PaymasterError> {
        if !self.config.initialized {
            Err(PaymasterError::NotInitialized)
        } else if self.config.paused {
            Err(PaymasterError::ContractPaused)
        } else {
            Ok(())
        }
    }

    /// The checks that owner-only entry points start with: `Unauthorized`
    /// for every caller but the owner, then `NotInitialized` before setup.
    pub open spec fn owner_check(self, caller: Address) -> Result<(), PaymasterError> {
        if caller != self.config.owner {
            Err(PaymasterError::Unauthorized)
        } else if !self.config.initialized {
            Err(PaymasterError::NotInitialized)
        } else {
            Ok(())
        }
    }

    /// What `initialize` returns: `AlreadyInitialized` after setup, whoever
    /// calls and whatever the arguments; before setup, `Unauthorized`
    /// unless the caller is the owner to install.
    pub open spec fn initialize_outcome(self, caller: Address, owner: Address) -> Result<
        (),
        PaymasterError,
    > {
        if self.config.initialized {
            Err(PaymasterError::AlreadyInitialized)
        } else if caller != owner {
            Err(PaymasterError::Unauthorized)
        } else {
            Ok(())
        }
    }

    /// The state after `initialize`: the given configuration with the
    /// default surcharge, running and set up, the ledger as it was; or
    /// nothing changed where the call is refused.
    pub open spec fn after_initialize(
        self,
        caller: Address,
        owner: Address,
        authorized_caller: Address,
        price_ref: nat,
    ) -> State {
        if self.initialize_outcome(caller, owner) is Ok {
            State {
                config: ConfigState {
                    owner,
                    authorized_caller,
                    price_ref,
                    surcharge_bps: DEFAULT_SURCHARGE_BPS as nat,
                    paused: false,
                    initialized: true,
                },
                ledger: self.ledger,
            }
        } else {
            self
        }
    }

    /// What a deposit returns: the new balance; or, in this order,
    /// `NotInitialized`, `ContractPaused`, what the ledger refuses, and
    /// `TransferFailed` where the transfer did not go through.
    pub open spec fn deposit_outcome(self, account: Address, amount: nat, transferred: bool) -> Result<
        nat,
        PaymasterError,
    > {
        if self.open_for_business() is Err {
            Err(self.open_for_business()->Err_0)
        } else if self.ledger.deposit_outcome(account, amount) is Err {
            self.ledger.deposit_outcome(account, amount)
        } else if !transferred {
            Err(PaymasterError::TransferFailed)
        } else {
            self.ledger.deposit_outcome(account, amount)
        }
    }

    /// The state after a deposit: the ledger after the deposit, or nothing
    /// changed where the deposit is refused.
    pub open spec fn after_deposit(self, account: Address, amount: nat, transferred: bool) -> State {
        if self.deposit_outcome(account, amount, transferred) is Ok {
            State { ledger: self.ledger.after_deposit(account, amount), ..self }
        } else {
            self
        }
    }

    /// What a withdrawal returns: the new balance; or, in this order,
    /// `NotInitialized`, `ContractPaused`, `InsufficientBalance`, and
    /// `TransferFailed` where the transfer did not go through.
    pub open spec fn withdraw_outcome(self, account: Address, amount: nat, transferred: bool) -> Result<
        nat,
        PaymasterError,
    > {
        if self.open_for_business() is Err {
            Err(self.open_for_business()->Err_0)
        } else if self.ledger.take_outcome(account, amount) is Err {
            self.ledger.take_outcome(account, amount)
        } else if !transferred {
            Err(PaymasterError::TransferFailed)
        } else {
            self.ledger.take_outcome(account, amount)
        }
    }

    /// The state after a withdrawal: the ledger after the withdrawal, or
    /// nothing changed where the withdrawal is refused.
    pub open spec fn after_withdraw(self, account: Address, amount: nat, transferred: bool) -> State {
        if self.withdraw_outcome(account, amount, transferred) is Ok {
            State { ledger: self.ledger.after_withdraw(account, amount), ..self }
        } else {
            self
        }
    }

    /// What validation returns: the amount reserved, which is the cost of
    /// `max_cost` in the stable asset; or, in this order, `Unauthorized`
    /// for every caller but the dispatcher, `NotInitialized`,
    /// `ContractPaused`, `ArithmeticOverflow` where the conversion
    /// overflows, and `InsufficientBalance` where the sender holds less
    /// than the cost.
    pub open spec fn validate_outcome(self, caller: Address, sender: Address, max_cost: nat) -> Result<
        nat,
        PaymasterError,
    > {
        if caller != self.config.authorized_caller {
            Err(PaymasterError::Unauthorized)
        } else if self.open_for_business() is Err {
            Err(self.open_for_business()->Err_0)
        } else if self.cost_of(max_cost) is Err {
            self.cost_of(max_cost)
        } else if self.ledger.take_outcome(sender, self.cost_of(max_cost)->Ok_0) is Err {
            Err(PaymasterError::InsufficientBalance)
        } else {
            self.cost_of(max_cost)
        }
    }

    /// The state after validation: the cost taken out of the sender's
    /// balance, or nothing changed where validation is refused.
    pub open spec fn after_validate(self, caller: Address, sender: Address, max_cost: nat) -> State {
        if self.validate_outcome(caller, sender, max_cost) is Ok {
            State {
                ledger: self.ledger.after_deduct(sender, self.cost_of(max_cost)->Ok_0),
                ..self
            }
        } else {
            self
        }
    }

    /// What settlement returns: `Unauthorized` for every caller but the
    /// dispatcher, then `NotInitialized` before setup. Settlement keeps
    /// what validation reserved and so leaves the state as it is.
    pub open spec fn settle_outcome(self, caller: Address) -> Result<(), PaymasterError> {
        if caller != self.config.authorized_caller {
            Err(PaymasterError::Unauthorized)
        } else if !self.config.initialized {
            Err(PaymasterError::NotInitialized)
        } else {
            Ok(())
        }
    }

    /// Whether the call is refused.
    pub open spec fn refuses(self, call: LedgerCall) -> bool {
        match call {
            LedgerCall::Deposit { account, amount, transferred } => self.deposit_outcome(
                account,
                amount,
                transferred,
            ) is Err,
            LedgerCall::Withdraw { account, amount, transferred } => self.withdraw_outcome(
                account,
                amount,
                transferred,
            ) is Err,
            LedgerCall::Validate { caller, sender, max_cost } => self.validate_outcome(
                caller,
                sender,
                max_cost,
            ) is Err,
        }
    }

    /// The state after the call.
    pub open spec fn after_call(self, call: LedgerCall) -> State {
        match call {
            LedgerCall::Deposit { account, amount, transferred } => self.after_deposit(
                account,
                amount,
                transferred,
            ),
            LedgerCall::Withdraw { account, amount, transferred } => self.after_withdraw(
                account,
                amount,
                transferred,
            ),
            LedgerCall::Validate { caller, sender, max_cost } => self.after_validate(
                caller,
                sender,
                max_cost,
            ),
        }
    }

    /// The state after the calls, made one after the other.
    pub open spec fn after_calls(self, calls: Seq<LedgerCall>) -> State
        decreases calls.len(),
    {
        if calls.len() == 0 {
            self
        } else {
            self.after_calls(calls.drop_last()).after_call(calls.last())
        }
    }

    /// Whether `account` holds the cost of `estimated_cost`.
    pub open spec fn can_sponsor(self, account: Address, estimated_cost: nat) -> bool {
        self.cost_of(estimated_cost) is Ok && self.balance(account) >= self.cost_of(
            estimated_cost,
        )->Ok_0
    }

    /// The state after `pause` or `unpause`: the pause flag replaced, or
    /// nothing changed where the owner check refuses the caller.
    pub open spec fn after_set_paused(self, caller: Address, paused: bool) -> State {
        if self.owner_check(caller) is Ok {
            State { config: ConfigState { paused, ..self.config }, ..self }
        } else {
            self
        }
    }

    /// The state after `set_price_ref`: the price reference replaced, or
    /// nothing changed where the owner check refuses the caller.
    pub open spec fn after_set_price_ref(self, caller: Address, value: nat) -> State {
        if self.owner_check(caller) is Ok {
            State { config: ConfigState { price_ref: value, ..self.config }, ..self }
        } else {
            self
        }
    }

    /// The state after `set_surcharge`: the surcharge replaced, or nothing
    /// changed where the owner check refuses the caller.
    pub open spec fn after_set_surcharge(self, caller: Address, bps: nat) -> State {
        if self.owner_check(caller) is Ok {
            State { config: ConfigState { surcharge_bps: bps, ..self.config }, ..self }
        } else {
            self
        }
    }

    /// The state after `set_authorized_caller`: the dispatcher replaced,
    /// or nothing changed where the owner check refuses the caller.
    pub open spec fn after_set_authorized_caller(self, caller: Address, identity: Address) -> State {
        if self.owner_check(caller) is Ok {
            State { config: ConfigState { authorized_caller: identity, ..self.config }, ..self }
        } else {
            self
        }
    }

    /// What `transfer_ownership` returns: what the owner check says, then
    /// `InvalidOperation` for the null identity.
    pub open spec fn transfer_ownership_outcome(self, caller: Address, new_owner: Address) -> Result<
        (),
        PaymasterError,
    > {
        if self.owner_check(caller) is Err {
            self.owner_check(caller)
        } else if new_owner@ == null_bytes() {
            Err(PaymasterError::InvalidOperation)
        } else {
            Ok(())
        }
    }

    /// The state after `transfer_ownership`: the owner replaced, or
    /// nothing changed where the call is refused.
    pub open spec fn after_transfer_ownership(self, caller: Address, new_owner: Address) -> State {
        if self.transfer_ownership_outcome(caller, new_owner) is Ok {
            State { config: ConfigState { owner: new_owner, ..self.config }, ..self }
        } else {
            self
        }
    }
}

} // verus!
