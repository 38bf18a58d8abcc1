use vstd::prelude::*;
use crate::admin::{check_admin, is_admin, update_config_spec, Config};
use crate::allowances::{Allowance, AllowanceStore};
use crate::balances::BalanceStore;
use crate::error::ContractError;
use crate::expiration::{BlockInfo, Expiration};
use crate::token::TokenInfo;

verus! {

/// The callback that a send asks to deliver to the receiving contract once
/// the send has committed.
pub struct ReceiveCallback {
    pub contract: String,
    pub sender: String,
    pub amount: u128,
    pub msg: Vec<u8>,
}

/// The ledger engine: admin registry, token info with the supply tracker,
/// balance table and allowance table, moved together by each operation.
pub struct Ledger {
    pub config: Config,
    pub token: TokenInfo,
    pub balances: BalanceStore,
    pub allowances: AllowanceStore,
    /// Burn and burn-from are admin-only; burn-from then takes no allowance.
    pub admin_gated_burn: bool,
}

impl TokenInfo {
    /// Everything but the total supply is the same.
    pub open spec fn same_meta(&self, other: &TokenInfo) -> bool {
        &&& self.name == other.name
        &&& self.symbol == other.symbol
        &&& self.decimals == other.decimals
        &&& self.mint == other.mint
    }
}

impl Ledger {
    /// The registry is not empty, each table is well formed, the balances add
    /// up to the total supply, and the total supply is within the cap.
    pub open spec fn wf(&self) -> bool {
        &&& self.config.wf()
        &&& self.balances.wf()
        &&& self.allowances.wf()
        &&& self.balances.total() == self.token.total_supply
        &&& self.token.within_cap()
    }

    pub open spec fn balance(&self, a: Seq<char>) -> nat {
        self.balances.balance(a)
    }

    /// `next` has the same registry, metadata, allowances and flags.
    pub open spec fn keeps_rest(&self, next: &Ledger) -> bool {
        &&& next.config == self.config
        &&& next.token.same_meta(&self.token)
        &&& next.admin_gated_burn == self.admin_gated_burn
    }

    // ---- outcomes: which error an operation ends with, if any ----

    pub open spec fn transfer_outcome(&self, from: Seq<char>, amount: u128) -> Result<(), ContractError> {
        if amount > self.balance(from) {
            Err(ContractError::InsufficientFunds)
        } else {
            Ok(())
        }
    }

    pub open spec fn mint_outcome(&self, sender: Seq<char>, amount: u128) -> Result<(), ContractError> {
        match self.token.mint {
            None => Err(ContractError::Unauthorized),
            Some(m) => if m.minter@ != sender {
                Err(ContractError::Unauthorized)
            } else if m.cap is Some && self.token.total_supply + amount > m.cap->Some_0 {
                Err(ContractError::CapExceeded)
            } else if self.token.total_supply + amount > u128::MAX {
                Err(ContractError::ArithmeticOverflow)
            } else {
                Ok(())
            },
        }
    }

    pub open spec fn burn_outcome(&self, sender: Seq<char>, amount: u128) -> Result<(), ContractError> {
        if self.admin_gated_burn && !self.config.spec_is_admin(sender) {
            Err(ContractError::Unauthorized)
        } else {
            self.transfer_outcome(sender, amount)
        }
    }

    pub open spec fn spend_then_debit_outcome(&self, owner: Seq<char>, spender: Seq<char>, amount: u128, block: BlockInfo) -> Result<(), ContractError> {
        match self.allowances.spend_outcome(owner, spender, amount, block) {
            Err(e) => Err(e),
            Ok(()) => self.transfer_outcome(owner, amount),
        }
    }

    pub open spec fn burn_from_outcome(&self, sender: Seq<char>, owner: Seq<char>, amount: u128, block: BlockInfo) -> Result<(), ContractError> {
        if self.admin_gated_burn {
            if !self.config.spec_is_admin(sender) {
                Err(ContractError::Unauthorized)
            } else {
                self.transfer_outcome(owner, amount)
            }
        } else {
            self.spend_then_debit_outcome(owner, sender, amount, block)
        }
    }

    pub open spec fn increase_outcome(&self, owner: Seq<char>, spender: Seq<char>, amount: u128) -> Result<(), ContractError> {
        if owner == spender {
            Err(ContractError::CannotSetOwnAccount)
        } else if !self.allowances.increase_fits(owner, spender, amount) {
            Err(ContractError::ArithmeticOverflow)
        } else {
            Ok(())
        }
    }

    pub open spec fn decrease_outcome(&self, owner: Seq<char>, spender: Seq<char>) -> Result<(), ContractError> {
        if owner == spender {
            Err(ContractError::CannotSetOwnAccount)
        } else if self.allowances.grant(owner, spender) is None {
            Err(ContractError::NoAllowance)
        } else {
            Ok(())
        }
    }

    // ---- the whole contract of each operation, on the ledger before and after ----

    /// transfer / send: `amount` moves from `from` to `to`.
    pub open spec fn transfer_spec(old: Ledger, next: Ledger, from: Seq<char>, to: Seq<char>, amount: u128, r: Result<(), ContractError>) -> bool {
        &&& r == old.transfer_outcome(from, amount)
        &&& r is Err ==> next == old
        &&& r is Ok ==> {
            &&& old.keeps_rest(&next)
            &&& next.allowances == old.allowances
            &&& next.token.total_supply == old.token.total_supply
            &&& old.balances.moved(&next.balances, from, to, amount as nat)
        }
    }

    /// mint: the minter adds `amount` to `to` and to the total supply.
    pub open spec fn mint_spec(old: Ledger, next: Ledger, sender: Seq<char>, to: Seq<char>, amount: u128, r: Result<(), ContractError>) -> bool {
        &&& r == old.mint_outcome(sender, amount)
        &&& r is Err ==> next == old
        &&& r is Ok ==> {
            &&& old.keeps_rest(&next)
            &&& next.allowances == old.allowances
            &&& next.token.total_supply == old.token.total_supply + amount
            &&& old.balances.set_to(&next.balances, to, (old.balance(to) + amount) as nat)
        }
    }

    /// burn: `amount` leaves the balance of `sender` and the total supply.
    pub open spec fn burn_spec(old: Ledger, next: Ledger, sender: Seq<char>, amount: u128, r: Result<(), ContractError>) -> bool {
        &&& r == old.burn_outcome(sender, amount)
        &&& r is Err ==> next == old
        &&& r is Ok ==> {
            &&& old.keeps_rest(&next)
            &&& next.allowances == old.allowances
            &&& next.token.total_supply == old.token.total_supply - amount
            &&& old.balances.set_to(&next.balances, sender, (old.balance(sender) - amount) as nat)
        }
    }

    /// burn-from: `amount` leaves the balance of `owner` and the total
    /// supply; without the admin gate it is also taken from the allowance of
    /// `owner` to `sender`.
    pub open spec fn burn_from_spec(old: Ledger, next: Ledger, sender: Seq<char>, owner: Seq<char>, amount: u128, block: BlockInfo, r: Result<(), ContractError>) -> bool {
        &&& r == old.burn_from_outcome(sender, owner, amount, block)
        &&& r is Err ==> next == old
        &&& r is Ok ==> {
            &&& old.keeps_rest(&next)
            &&& if old.admin_gated_burn {
                next.allowances == old.allowances
            } else {
                old.allowances.replaced(&next.allowances, owner, sender, Some(old.allowances.spent(owner, sender, amount)))
            }
            &&& next.token.total_supply == old.token.total_supply - amount
            &&& old.balances.set_to(&next.balances, owner, (old.balance(owner) - amount) as nat)
        }
    }

    /// transfer-from / send-from: `amount` is taken from the allowance of
    /// `owner` to `spender` and moves from `owner` to `to`.
    pub open spec fn transfer_from_spec(old: Ledger, next: Ledger, spender: Seq<char>, owner: Seq<char>, to: Seq<char>, amount: u128, block: BlockInfo, r: Result<(), ContractError>) -> bool {
        &&& r == old.spend_then_debit_outcome(owner, spender, amount, block)
        &&& r is Err ==> next == old
        &&& r is Ok ==> {
            &&& old.keeps_rest(&next)
            &&& old.allowances.replaced(&next.allowances, owner, spender, Some(old.allowances.spent(owner, spender, amount)))
            &&& next.token.total_supply == old.token.total_supply
            &&& old.balances.moved(&next.balances, owner, to, amount as nat)
        }
    }

    /// increase-allowance by `owner` for `spender`.
    pub open spec fn increase_spec(old: Ledger, next: Ledger, owner: Seq<char>, spender: Seq<char>, amount: u128, expires: Option<Expiration>, r: Result<(), ContractError>) -> bool {
        &&& r == old.increase_outcome(owner, spender, amount)
        &&& r is Err ==> next == old
        &&& r is Ok ==> {
            &&& old.keeps_rest(&next)
            &&& next.token.total_supply == old.token.total_supply
            &&& next.balances == old.balances
            &&& old.allowances.replaced(&next.allowances, owner, spender, Some(old.allowances.increased(owner, spender, amount, expires)))
        }
    }

    /// decrease-allowance by `owner` for `spender`.
    pub open spec fn decrease_spec(old: Ledger, next: Ledger, owner: Seq<char>, spender: Seq<char>, amount: u128, expires: Option<Expiration>, r: Result<(), ContractError>) -> bool {
        &&& r == old.decrease_outcome(owner, spender)
        &&& r is Err ==> next == old
        &&& r is Ok ==> {
            &&& old.keeps_rest(&next)
            &&& next.token.total_supply == old.token.total_supply
            &&& next.balances == old.balances
            &&& old.allowances.replaced(&next.allowances, owner, spender, old.allowances.decreased(owner, spender, amount, expires))
        }
    }

    /// update-config by `sender`: only the registry may change.
    pub open spec fn config_spec(old: Ledger, next: Ledger, sender: Seq<char>, new_admins: Option<Vec<Result<String, String>>>, r: Result<(), ContractError>) -> bool {
        &&& update_config_spec(old.config, next.config, sender, new_admins, r)
        &&& next.token == old.token
        &&& next.balances == old.balances
        &&& next.allowances == old.allowances
        &&& next.admin_gated_burn == old.admin_gated_burn
    }

    // ---- operations ----

    fn move_tokens(&mut self, from: &String, to: &String, amount: u128) -> (r: Result<(), ContractError>)
        requires
            old(self).wf(),
        ensures
            final(self).wf(),
            Ledger::transfer_spec(*old(self), *final(self), from@, to@, amount, r),
    {
        let debit = self.balances.sub(from, amount);
        if debit.is_err() {
            return Err(ContractError::InsufficientFunds);
        }
        proof {
            self.balances.lemma_balance_le_total(to@);
        }
        let credit = self.balances.add(to, amount);
        match credit {
            Ok(()) => Ok(()),
            Err(e) => Err(e),
        }
    }

    /// Moves `amount` from `sender` to `recipient`. A zero amount is allowed.
    pub fn transfer(&mut self, sender: &String, recipient: &String, amount: u128) -> (r: Result<(), ContractError>)
        requires
            old(self).wf(),
        ensures
            final(self).wf(),
            Ledger::transfer_spec(*old(self), *final(self), sender@, recipient@, amount, r),
    {
        self.move_tokens(sender, recipient, amount)
    }

    /// Moves `amount` from `sender` to `contract` and hands back the callback
    /// to deliver to `contract`, carrying `msg`.
    pub fn send(&mut self, sender: &String, contract: &String, amount: u128, msg: Vec<u8>) -> (r: Result<ReceiveCallback, ContractError>)
        requires
            old(self).wf(),
        ensures
            final(self).wf(),
            Ledger::transfer_spec(*old(self), *final(self), sender@, contract@, amount, unit_of(r)),
            r is Ok ==> r->Ok_0.contract@ == contract@ && r->Ok_0.sender@ == sender@
                && r->Ok_0.amount == amount && r->Ok_0.msg@ == msg@,
    {
        self.move_tokens(sender, contract, amount)?;
        Ok(ReceiveCallback { contract: contract.clone(), sender: sender.clone(), amount, msg })
    }

    /// The minter adds `amount` to `recipient`; the total supply may not pass
    /// the cap, nor 128 bits.
    pub fn mint(&mut self, sender: &String, recipient: &String, amount: u128) -> (r: Result<(), ContractError>)
        requires
            old(self).wf(),
        ensures
            final(self).wf(),
            Ledger::mint_spec(*old(self), *final(self), sender@, recipient@, amount, r),
    {
        let cap = match &self.token.mint {
            None => {
                return Err(ContractError::Unauthorized);
            },
            Some(m) => {
                if !(m.minter == *sender) {
                    return Err(ContractError::Unauthorized);
                }
                m.cap
            },
        };
        if let Some(c) = cap {
            if amount > c - self.token.total_supply {
                return Err(ContractError::CapExceeded);
            }
        }
        let total = match self.token.total_supply.checked_add(amount) {
            None => {
                return Err(ContractError::ArithmeticOverflow);
            },
            Some(t) => t,
        };
        proof {
            self.balances.lemma_balance_le_total(recipient@);
        }
        let credit = self.balances.add(recipient, amount);
        if credit.is_err() {
            return Err(ContractError::ArithmeticOverflow);
        }
        self.token.total_supply = total;
        Ok(())
    }

    fn debit_supply(&mut self, holder: &String, amount: u128) -> (r: Result<(), ContractError>)
        requires
            old(self).wf(),
        ensures
            final(self).wf(),
            r == old(self).transfer_outcome(holder@, amount),
            r is Err ==> *final(self) == *old(self),
            r is Ok ==> {
                &&& old(self).keeps_rest(final(self))
                &&& final(self).allowances == old(self).allowances
                &&& final(self).token.total_supply == old(self).token.total_supply - amount
                &&& old(self).balances.set_to(&final(self).balances, holder@, (old(self).balance(holder@) - amount) as nat)
            },
    {
        let debit = self.balances.sub(holder, amount);
        if debit.is_err() {
            return Err(ContractError::InsufficientFunds);
        }
        self.token.total_supply = self.token.total_supply - amount;
        Ok(())
    }

    /// Burns `amount` of the sender's own tokens; admin-only where burning is
    /// gated.
    pub fn burn(&mut self, sender: &String, amount: u128) -> (r: Result<(), ContractError>)
        requires
            old(self).wf(),
        ensures
            final(self).wf(),
            Ledger::burn_spec(*old(self), *final(self), sender@, amount, r),
    {
        if self.admin_gated_burn {
            check_admin(&self.config, sender)?;
        }
        self.debit_supply(sender, amount)
    }

    /// Burns `amount` held by `owner`: by an admin where burning is gated,
    /// else out of the allowance of `owner` to `sender`.
    pub fn burn_from(&mut self, sender: &String, owner: &String, amount: u128, block: &BlockInfo) -> (r: Result<(), ContractError>)
        requires
            old(self).wf(),
        ensures
            final(self).wf(),
            Ledger::burn_from_spec(*old(self), *final(self), sender@, owner@, amount, *block, r),
    {
        if self.admin_gated_burn {
            check_admin(&self.config, sender)?;
            return self.debit_supply(owner, amount);
        }
        self.allowances.check_spend(owner, sender, amount, block)?;
        if amount > self.balances.get(owner) {
            return Err(ContractError::InsufficientFunds);
        }
        let spent = self.allowances.spend(owner, sender, amount, block);
        if spent.is_err() {
            return spent;
        }
        self.debit_supply(owner, amount)
    }

    fn move_tokens_from(&mut self, spender: &String, owner: &String, to: &String, amount: u128, block: &BlockInfo) -> (r: Result<(), ContractError>)
        requires
            old(self).wf(),
        ensures
            final(self).wf(),
            Ledger::transfer_from_spec(*old(self), *final(self), spender@, owner@, to@, amount, *block, r),
    {
        self.allowances.check_spend(owner, spender, amount, block)?;
        if amount > self.balances.get(owner) {
            return Err(ContractError::InsufficientFunds);
        }
        let spent = self.allowances.spend(owner, spender, amount, block);
        if spent.is_err() {
            return spent;
        }
        self.move_tokens(owner, to, amount)
    }

    /// `sender` moves `amount` from `owner` to `recipient` out of the
    /// allowance that `owner` granted it.
    pub fn transfer_from(&mut self, sender: &String, owner: &String, recipient: &String, amount: u128, block: &BlockInfo) -> (r: Result<(), ContractError>)
        requires
            old(self).wf(),
        ensures
            final(self).wf(),
            Ledger::transfer_from_spec(*old(self), *final(self), sender@, owner@, recipient@, amount, *block, r),
    {
        self.move_tokens_from(sender, owner, recipient, amount, block)
    }

    /// `sender` moves `amount` from `owner` to `contract` out of its
    /// allowance, and hands back the callback to deliver to `contract`.
    pub fn send_from(&mut self, sender: &String, owner: &String, contract: &String, amount: u128, msg: Vec<u8>, block: &BlockInfo) -> (r: Result<ReceiveCallback, ContractError>)
        requires
            old(self).wf(),
        ensures
            final(self).wf(),
            Ledger::transfer_from_spec(*old(self), *final(self), sender@, owner@, contract@, amount, *block, unit_of(r)),
            r is Ok ==> r->Ok_0.contract@ == contract@ && r->Ok_0.sender@ == sender@
                && r->Ok_0.amount == amount && r->Ok_0.msg@ == msg@,
    {
        self.move_tokens_from(sender, owner, contract, amount, block)?;
        Ok(ReceiveCallback { contract: contract.clone(), sender: sender.clone(), amount, msg })
    }

    /// `sender` raises what `spender` may take from it.
    pub fn increase_allowance(&mut self, sender: &String, spender: &String, amount: u128, expires: Option<Expiration>) -> (r: Result<(), ContractError>)
        requires
            old(self).wf(),
        ensures
            final(self).wf(),
            Ledger::increase_spec(*old(self), *final(self), sender@, spender@, amount, expires, r),
    {
        if *sender == *spender {
            return Err(ContractError::CannotSetOwnAccount);
        }
        let r = self.allowances.increase(sender, spender, amount, expires);
        match r {
            Ok(()) => Ok(()),
            Err(_) => Err(ContractError::ArithmeticOverflow),
        }
    }

    /// `sender` lowers what `spender` may take from it, never below zero.
    pub fn decrease_allowance(&mut self, sender: &String, spender: &String, amount: u128, expires: Option<Expiration>) -> (r: Result<(), ContractError>)
        requires
            old(self).wf(),
        ensures
            final(self).wf(),
            Ledger::decrease_spec(*old(self), *final(self), sender@, spender@, amount, expires, r),
    {
        if *sender == *spender {
            return Err(ContractError::CannotSetOwnAccount);
        }
        let r = self.allowances.decrease(sender, spender, amount, expires);
        match r {
            Ok(()) => Ok(()),
            Err(_) => Err(ContractError::NoAllowance),
        }
    }

    /// Replaces the admin list; see `update_config_spec`.
    pub fn update_config(&mut self, sender: &String, new_admins: Option<Vec<Result<String, String>>>) -> (r: Result<(), ContractError>)
        requires
            old(self).wf(),
        ensures
            final(self).wf(),
            Ledger::config_spec(*old(self), *final(self), sender@, new_admins, r),
    {
        crate::admin::update_config(&mut self.config, sender, new_admins)
    }

    /// Whether the ledger is well formed, as every operation requires; for
    /// state that was assembled outside the library.
    pub fn check_wf(&self) -> (r: bool)
        ensures
            r == self.wf(),
    {
        if self.config.admins.len() == 0 || !self.balances.rows_unique() || !self.allowances.rows_unique() {
            return false;
        }
        match self.balances.checked_total() {
            None => false,
            Some(t) => {
                if t != self.token.total_supply {
                    return false;
                }
                match &self.token.mint {
                    Some(m) => match m.cap {
                        Some(c) => self.token.total_supply <= c,
                        None => true,
                    },
                    None => true,
                }
            },
        }
    }

    /// Whether `addr` is an admin.
    pub fn is_admin(&self, addr: &String) -> (r: bool)
        ensures
            r == self.config.spec_is_admin(addr@),
    {
        is_admin(&self.config, addr)
    }

    // ---- queries ----

    /// The balance of `address`; zero for an account never seen.
    pub fn query_balance(&self, address: &String) -> (r: u128)
        requires
            self.wf(),
        ensures
            r == self.balance(address@),
    {
        self.balances.get(address)
    }

    /// The grant of `owner` to `spender`; zero that never expires where there
    /// is none.
    pub fn query_allowance(&self, owner: &String, spender: &String) -> (r: Allowance)
        requires
            self.wf(),
        ensures
            r == self.allowances.grant_or_default(owner@, spender@),
    {
        match self.allowances.get(owner, spender) {
            Some(g) => g,
            None => Allowance { allowance: 0, expires: Expiration::Never },
        }
    }
}

/// A result with its success value dropped.
pub open spec fn unit_of<T>(r: Result<T, ContractError>) -> Result<(), ContractError> {
    match r {
        Ok(_) => Ok(()),
        Err(e) => Err(e),
    }
}

} // verus!
