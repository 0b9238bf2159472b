//! The paymaster: configuration and ledger behind the entry points that
//! fund, reserve, settle and administer gas sponsorship.
//!
//! A call runs to completion or changes nothing. Moving the stable asset
//! is the embedder's part: `plan_deposit` and `plan_withdrawal` say which
//! transfer to make, and `deposit_usdc` and `withdraw_usdc` take its
//! outcome.

use crate::address::Address;
use crate::error::{amount_value, PaymasterError};
use crate::gate::{require_caller, require_initialized, require_not_initialized, require_not_paused};
use crate::ledger::BalanceLedger;
use crate::price::convert;
use crate::state::{ConfigState, State, DEFAULT_SURCHARGE_BPS};
use crate::uint::{lemma_view_bounded, U256};
use vstd::prelude::*;

verus! {

/// The latest time a receipt can name: it never expires.
pub const NO_EXPIRY: u64 = 0xffff_ffff_ffff;

/// The configuration of a paymaster.
#[derive(Clone, Copy, Debug, PartialEq, Eq)]
pub struct GlobalConfig {
    pub owner: Address,
    pub authorized_caller: Address,
    pub price_ref: U256,
    pub surcharge_bps: U256,
    pub paused: bool,
    pub initialized: bool,
}

impl View for GlobalConfig {
    type V = ConfigState;

    open spec fn view(&self) -> ConfigState {
        ConfigState {
            owner: self.owner,
            authorized_caller: self.authorized_caller,
            price_ref: self.price_ref@,
            surcharge_bps: self.surcharge_bps@,
            paused: self.paused,
            initialized: self.initialized,
        }
    }
}

/// A transfer of the stable asset that the embedder is to make.
#[derive(Clone, Copy, Debug, PartialEq, Eq)]
pub enum TransferRequest {
    /// Move `amount` from `from` into the paymaster's custody.
    Pull { from: Address, amount: U256 },
    /// Move `amount` out of the paymaster's custody to `to`.
    Push { to: Address, amount: U256 },
}

/// What validation hands to the dispatcher for the matching settlement.
#[derive(Clone, Copy, Debug, PartialEq, Eq)]
pub struct OperationContext {
    pub sender: Address,
    pub max_cost: U256,
    pub deducted: U256,
    pub native_fee: U256,
}

/// The receipt of a successful validation.
#[derive(Clone, Copy, Debug, PartialEq, Eq)]
pub struct ValidationReceipt {
    pub valid: bool,
    pub valid_after: u64,
    pub valid_until: u64,
    pub deducted: U256,
    pub context: OperationContext,
}

/// How the sponsored operation ended.
#[derive(Clone, Copy, Debug, PartialEq, Eq)]
pub enum SettlementMode {
    Succeeded,
    Failed,
}

/// The receipt for a reservation of `deducted` against `max_cost` of
/// native fee on behalf of `sender`: valid, from the start, without
/// expiry.
pub open spec fn receipt_for(sender: Address, max_cost: U256, deducted: U256) -> ValidationReceipt {
    ValidationReceipt {
        valid: true,
        valid_after: 0,
        valid_until: NO_EXPIRY,
        deducted,
        context: OperationContext { sender, max_cost, deducted, native_fee: max_cost },
    }
}

/// The paymaster.
#[derive(Debug)]
pub struct CastPayPaymaster {
    config: GlobalConfig,
    ledger: BalanceLedger,
}

impl View for CastPayPaymaster {
    type V = State;

    closed spec fn view(&self) -> State {
        State { config: self.config@, ledger: self.ledger@ }
    }
}

impl CastPayPaymaster {
    /// The ledger lists no account twice, the sum of all balances does
    /// not exceed the deposit counter, and only an initialized paymaster
    /// is paused.
    pub closed spec fn wf(&self) -> bool {
        &&& self.ledger.wf()
        &&& self.ledger@.held <= self.ledger@.total_deposited
        &&& self.config.paused ==> self.config.initialized
    }

    /// The view of a well-formed paymaster is a valid state, in which the
    /// sum of all balances is not negative and no account holds more than
    /// it.
    pub proof fn lemma_view_valid(&self)
        requires
            self.wf(),
        ensures
            self@.valid(),
            0 <= self@.ledger.held,
            forall|a: Address| #[trigger] self@.balance(a) <= self@.ledger.held,
    {
        self.ledger.lemma_view_valid();
        lemma_view_bounded(self.config.price_ref);
        lemma_view_bounded(self.config.surcharge_bps);
    }

    /// A paymaster before setup: no owner, nothing configured, nothing
    /// held.
    pub fn new() -> (r: CastPayPaymaster)
        ensures
            r.wf(),
            r@.before_setup(),
    {
        CastPayPaymaster {
            config: GlobalConfig {
                owner: Address::zero(),
                authorized_caller: Address::zero(),
                price_ref: U256::zero(),
                surcharge_bps: U256::zero(),
                paused: false,
                initialized: false,
            },
            ledger: BalanceLedger::new(),
        }
    }

    /// The paymaster with the given configuration and ledger, or `None`
    /// for what no sequence of calls produces: a configuration that is
    /// paused without being initialized, or a ledger whose balances sum
    /// to more than its deposit counter.
    pub fn restore(config: GlobalConfig, ledger: BalanceLedger) -> (r: Option<CastPayPaymaster>)
        requires
            ledger.wf(),
        ensures
            r is Some <==> (config.paused ==> config.initialized) && ledger@.held
                <= ledger@.total_deposited,
            r is Some ==> r->0.wf() && r->0@ == (State { config: config@, ledger: ledger@ }),
    {
        if config.paused && !config.initialized {
            return None;
        }
        proof {
            ledger.lemma_view_valid();
        }
        match ledger.total_held() {
            Ok(held) => {
                if ledger.total_deposited().lt(held) {
                    None
                } else {
                    Some(CastPayPaymaster { config, ledger })
                }
            },
            Err(_) => None,
        }
    }

    /// The configuration.
    pub fn config(&self) -> (r: GlobalConfig)
        ensures
            r@ == self@.config,
    {
        self.config
    }

    /// The checks on the flags that deposits, withdrawals and validation
    /// make: `NotInitialized` before setup, then `ContractPaused` while
    /// paused.
    pub fn require_open(&self) -> (r: Result<(), PaymasterError>)
        ensures
            r == self@.open_for_business(),
    {
        match require_initialized(self.config.initialized) {
            Ok(()) => require_not_paused(self.config.paused),
            Err(e) => Err(e),
        }
    }

    /// The checks that owner-only entry points start with: `Unauthorized`
    /// for every caller but the owner, then `NotInitialized` before setup.
    pub fn require_owner(&self, caller: &Address) -> (r: Result<(), PaymasterError>)
        ensures
            r == self@.owner_check(*caller),
    {
        match require_caller(caller, &self.config.owner) {
            Ok(()) => require_initialized(self.config.initialized),
            Err(e) => Err(e),
        }
    }

    /// Sets the paymaster up, once: `owner`, who must be the caller, the
    /// one dispatcher allowed to validate and settle, and the price
    /// reference. The surcharge starts at 10%. On a paymaster that is set
    /// up every call fails `AlreadyInitialized`.
    pub fn initialize(
        &mut self,
        caller: Address,
        owner: Address,
        authorized_caller: Address,
        initial_price_ref: U256,
    ) -> (r: Result<(), PaymasterError>)
        requires
            old(self).wf(),
        ensures
            final(self).wf(),
            r == old(self)@.initialize_outcome(caller, owner),
            final(self)@ == old(self)@.after_initialize(
                caller,
                owner,
                authorized_caller,
                initial_price_ref@,
            ),
    {
        match require_not_initialized(self.config.initialized) {
            Ok(()) => {},
            Err(e) => { return Err(e); },
        }
        match require_caller(&caller, &owner) {
            Ok(()) => {},
            Err(e) => { return Err(e); },
        }
        self.config = GlobalConfig {
            owner,
            authorized_caller,
            price_ref: initial_price_ref,
            surcharge_bps: U256::from_u64(DEFAULT_SURCHARGE_BPS),
            paused: false,
            initialized: true,
        };
        Ok(())
    }

    /// Says which transfer a deposit needs, or why the deposit would be
    /// refused whatever the transfer does.
    pub fn plan_deposit(&self, account: Address, amount: U256) -> (r: Result<
        TransferRequest,
        PaymasterError,
    >)
        requires
            self.wf(),
        ensures
            r == (match self@.deposit_outcome(account, amount@, true) {
                Ok(_) => Ok(TransferRequest::Pull { from: account, amount }),
                Err(e) => Err(e),
            }),
    {
        match self.require_open() {
            Ok(()) => {},
            Err(e) => { return Err(e); },
        }
        match self.ledger.check_deposit(&account, amount) {
            Ok(_) => Ok(TransferRequest::Pull { from: account, amount }),
            Err(e) => Err(e),
        }
    }

    /// Records a deposit of `amount` by `account` and returns the new
    /// balance. `transferred` says whether the stable asset reached the
    /// paymaster; where it did not, the deposit fails `TransferFailed`.
    pub fn deposit_usdc(&mut self, account: Address, amount: U256, transferred: bool) -> (r: Result<
        U256,
        PaymasterError,
    >)
        requires
            old(self).wf(),
        ensures
            final(self).wf(),
            amount_value(r) == old(self)@.deposit_outcome(account, amount@, transferred),
            final(self)@ == old(self)@.after_deposit(account, amount@, transferred),
    {
        match self.require_open() {
            Ok(()) => {},
            Err(e) => { return Err(e); },
        }
        if !transferred {
            return match self.ledger.check_deposit(&account, amount) {
                Ok(_) => Err(PaymasterError::TransferFailed),
                Err(e) => Err(e),
            };
        }
        self.ledger.deposit(account, amount)
    }

    /// Says which transfer a withdrawal needs, or why the withdrawal
    /// would be refused whatever the transfer does.
    pub fn plan_withdrawal(&self, account: Address, amount: U256) -> (r: Result<
        TransferRequest,
        PaymasterError,
    >)
        requires
            self.wf(),
        ensures
            r == (match self@.withdraw_outcome(account, amount@, true) {
                Ok(_) => Ok(TransferRequest::Push { to: account, amount }),
                Err(e) => Err(e),
            }),
    {
        match self.require_open() {
            Ok(()) => {},
            Err(e) => { return Err(e); },
        }
        match self.ledger.check_take(&account, amount) {
            Ok(_) => Ok(TransferRequest::Push { to: account, amount }),
            Err(e) => Err(e),
        }
    }

    /// Records a withdrawal of `amount` by `account` and returns the new
    /// balance. `transferred` says whether the stable asset reached the
    /// account; where it did not, the withdrawal fails `TransferFailed`.
    pub fn withdraw_usdc(&mut self, account: Address, amount: U256, transferred: bool) -> (r: Result<
        U256,
        PaymasterError,
    >)
        requires
            old(self).wf(),
        ensures
            final(self).wf(),
            amount_value(r) == old(self)@.withdraw_outcome(account, amount@, transferred),
            final(self)@ == old(self)@.after_withdraw(account, amount@, transferred),
    {
        match self.require_open() {
            Ok(()) => {},
            Err(e) => { return Err(e); },
        }
        if !transferred {
            return match self.ledger.check_take(&account, amount) {
                Ok(_) => Err(PaymasterError::TransferFailed),
                Err(e) => Err(e),
            };
        }
        self.ledger.withdraw(account, amount)
    }

    /// Validation, the first phase of sponsorship: reserves the cost of
    /// `gas_cost` of native fee out of what `user` holds and returns the
    /// receipt. Only the authorized dispatcher may call it.
    pub fn sponsor_gas_for_user(&mut self, caller: Address, user: Address, gas_cost: U256) -> (r:
        Result<ValidationReceipt, PaymasterError>)
        requires
            old(self).wf(),
        ensures
            final(self).wf(),
            final(self)@ == old(self)@.after_validate(caller, user, gas_cost@),
            match old(self)@.validate_outcome(caller, user, gas_cost@) {
                Ok(cost) => r is Ok && r->Ok_0.deducted@ == cost && r->Ok_0 == receipt_for(
                    user,
                    gas_cost,
                    r->Ok_0.deducted,
                ),
                Err(e) => r == Err::<ValidationReceipt, PaymasterError>(e),
            },
    {
        match require_caller(&caller, &self.config.authorized_caller) {
            Ok(()) => {},
            Err(e) => { return Err(e); },
        }
        match self.require_open() {
            Ok(()) => {},
            Err(e) => { return Err(e); },
        }
        let cost = match convert(gas_cost, self.config.price_ref, self.config.surcharge_bps) {
            Ok(v) => v,
            Err(e) => { return Err(e); },
        };
        match self.ledger.try_deduct(user, cost) {
            Ok(_) => {},
            Err(e) => { return Err(e); },
        }
        Ok(
            ValidationReceipt {
                valid: true,
                valid_after: 0,
                valid_until: NO_EXPIRY,
                deducted: cost,
                context: OperationContext {
                    sender: user,
                    max_cost: gas_cost,
                    deducted: cost,
                    native_fee: gas_cost,
                },
            },
        )
    }

    /// Settlement, the second phase: closes a reservation. What was
    /// reserved is kept whatever the operation cost and however it ended,
    /// so nothing changes. Only the authorized dispatcher may call it.
    pub fn settle(
        &mut self,
        caller: Address,
        mode: SettlementMode,
        context: &OperationContext,
        actual_cost: U256,
    ) -> (r: Result<(), PaymasterError>)
        requires
            old(self).wf(),
        ensures
            final(self).wf(),
            r == old(self)@.settle_outcome(caller),
            final(self)@ == old(self)@,
    {
        match require_caller(&caller, &self.config.authorized_caller) {
            Ok(()) => {},
            Err(e) => { return Err(e); },
        }
        require_initialized(self.config.initialized)
    }

    /// Whether `account` holds the cost of `estimated_cost` of native
    /// fee. A cost that overflows cannot be sponsored.
    pub fn can_sponsor(&self, account: Address, estimated_cost: U256) -> (r: bool)
        requires
            self.wf(),
        ensures
            r == self@.can_sponsor(account, estimated_cost@),
    {
        match convert(estimated_cost, self.config.price_ref, self.config.surcharge_bps) {
            Ok(cost) => self.ledger.balance_of(&account).ge(cost),
            Err(_) => false,
        }
    }

    /// Stops deposits, withdrawals and validation. Owner only; pausing a
    /// paused paymaster is no error.
    pub fn pause(&mut self, caller: Address) -> (r: Result<(), PaymasterError>)
        requires
            old(self).wf(),
        ensures
            final(self).wf(),
            r == old(self)@.owner_check(caller),
            final(self)@ == old(self)@.after_set_paused(caller, true),
    {
        match self.require_owner(&caller) {
            Ok(()) => {},
            Err(e) => { return Err(e); },
        }
        self.config.paused = true;
        Ok(())
    }

    /// Resumes deposits, withdrawals and validation. Owner only;
    /// unpausing a running paymaster is no error.
    pub fn unpause(&mut self, caller: Address) -> (r: Result<(), PaymasterError>)
        requires
            old(self).wf(),
        ensures
            final(self).wf(),
            r == old(self)@.owner_check(caller),
            final(self)@ == old(self)@.after_set_paused(caller, false),
    {
        match self.require_owner(&caller) {
            Ok(()) => {},
            Err(e) => { return Err(e); },
        }
        self.config.paused = false;
        Ok(())
    }

    /// Hands the paymaster to `new_owner`, who may not be the null
    /// identity. Owner only.
    pub fn transfer_ownership(&mut self, caller: Address, new_owner: Address) -> (r: Result<
        (),
        PaymasterError,
    >)
        requires
            old(self).wf(),
        ensures
            final(self).wf(),
            r == old(self)@.transfer_ownership_outcome(caller, new_owner),
            final(self)@ == old(self)@.after_transfer_ownership(caller, new_owner),
    {
        match self.require_owner(&caller) {
            Ok(()) => {},
            Err(e) => { return Err(e); },
        }
        if new_owner.is_zero() {
            return Err(PaymasterError::InvalidOperation);
        }
        self.config.owner = new_owner;
        Ok(())
    }

    /// Replaces the price reference. Owner only.
    pub fn set_price_ref(&mut self, caller: Address, value: U256) -> (r: Result<(), PaymasterError>)
        requires
            old(self).wf(),
        ensures
            final(self).wf(),
            r == old(self)@.owner_check(caller),
            final(self)@ == old(self)@.after_set_price_ref(caller, value@),
    {
        match self.require_owner(&caller) {
            Ok(()) => {},
            Err(e) => { return Err(e); },
        }
        self.config.price_ref = value;
        Ok(())
    }

    /// Replaces the surcharge, in basis points; more than 10000 is a
    /// markup of more than the whole and is accepted. Owner only.
    pub fn set_surcharge(&mut self, caller: Address, bps: U256) -> (r: Result<(), PaymasterError>)
        requires
            old(self).wf(),
        ensures
            final(self).wf(),
            r == old(self)@.owner_check(caller),
            final(self)@ == old(self)@.after_set_surcharge(caller, bps@),
    {
        match self.require_owner(&caller) {
            Ok(()) => {},
            Err(e) => { return Err(e); },
        }
        self.config.surcharge_bps = bps;
        Ok(())
    }

    /// Replaces the dispatcher allowed to validate and settle. Owner
    /// only.
    pub fn set_authorized_caller(&mut self, caller: Address, identity: Address) -> (r: Result<
        (),
        PaymasterError,
    >)
        requires
            old(self).wf(),
        ensures
            final(self).wf(),
            r == old(self)@.owner_check(caller),
            final(self)@ == old(self)@.after_set_authorized_caller(caller, identity),
    {
        match self.require_owner(&caller) {
            Ok(()) => {},
            Err(e) => { return Err(e); },
        }
        self.config.authorized_caller = identity;
        Ok(())
    }

    /// What `account` holds.
    pub fn get_user_balance(&self, account: Address) -> (r: U256)
        requires
            self.wf(),
        ensures
            r@ == self@.balance(account),
    {
        self.ledger.balance_of(&account)
    }

    /// The sum of what all accounts hold.
    pub fn get_contract_balance(&self) -> (r: U256)
        requires
            self.wf(),
        ensures
            r@ == self@.ledger.held,
    {
        proof {
            self.ledger.lemma_view_valid();
        }
        self.ledger.total_held().unwrap()
    }

    /// The deposit counter: what was deposited and not withdrawn.
    pub fn get_total_usdc_deposited(&self) -> (r: U256)
        ensures
            r@ == self@.ledger.total_deposited,
    {
        self.ledger.total_deposited()
    }

    /// Whether the paymaster is paused.
    pub fn is_paused(&self) -> (r: bool)
        ensures
            r == self@.config.paused,
    {
        self.config.paused
    }

    /// Whether the paymaster has been set up.
    pub fn is_initialized(&self) -> (r: bool)
        ensures
            r == self@.config.initialized,
    {
        self.config.initialized
    }

    /// The owner.
    pub fn owner(&self) -> (r: Address)
        ensures
            r == self@.config.owner,
    {
        self.config.owner
    }

    /// The dispatcher allowed to validate and settle.
    pub fn authorized_caller(&self) -> (r: Address)
        ensures
            r == self@.config.authorized_caller,
    {
        self.config.authorized_caller
    }

    /// The price reference.
    pub fn get_price_ref(&self) -> (r: U256)
        ensures
            r@ == self@.config.price_ref,
    {
        self.config.price_ref
    }

    /// The surcharge, in basis points.
    pub fn get_surcharge(&self) -> (r: U256)
        ensures
            r@ == self@.config.surcharge_bps,
    {
        self.config.surcharge_bps
    }
}

} // verus!
