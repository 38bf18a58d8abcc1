//! Properties of the ledger that relate several operations or hold of every
//! state, each proved from the operations' contracts.

use vstd::prelude::*;
use crate::contract::{withdraw_spec, BankTransfer};
use crate::error::ContractError;
use crate::expiration::{BlockInfo, Expiration};
use crate::ledger::Ledger;
use crate::tax::TaxQuote;

verus! {

/// One successful step that only moves tokens: a transfer or send, or a
/// transfer-from or send-from out of an allowance.
pub open spec fn moving_step(a: Ledger, b: Ledger) -> bool {
    (exists|from: Seq<char>, to: Seq<char>, amount: u128|
        Ledger::transfer_spec(a, b, from, to, amount, Ok(())))
    || (exists|spender: Seq<char>, owner: Seq<char>, to: Seq<char>, amount: u128, block: BlockInfo|
        Ledger::transfer_from_spec(a, b, spender, owner, to, amount, block, Ok(())))
}

/// Conservation: a successful transfer or send leaves the sum of all
/// balances as it was.
pub proof fn law_transfer_conserves(old: Ledger, next: Ledger, from: Seq<char>, to: Seq<char>, amount: u128)
    requires
        old.wf(),
        next.wf(),
        Ledger::transfer_spec(old, next, from, to, amount, Ok(())),
    ensures
        next.balances.total() == old.balances.total(),
        next.token.total_supply == old.token.total_supply,
{
}

/// Conservation: a successful transfer-from or send-from leaves the sum of
/// all balances as it was.
pub proof fn law_transfer_from_conserves(old: Ledger, next: Ledger, spender: Seq<char>, owner: Seq<char>, to: Seq<char>, amount: u128, block: BlockInfo)
    requires
        old.wf(),
        next.wf(),
        Ledger::transfer_from_spec(old, next, spender, owner, to, amount, block, Ok(())),
    ensures
        next.balances.total() == old.balances.total(),
        next.token.total_supply == old.token.total_supply,
{
}

/// Conservation over any run: after a sequence of successful transfers,
/// sends and allowance spends, the sum of all balances is what it was at the
/// start.
pub proof fn law_moving_steps_conserve(states: Seq<Ledger>)
    requires
        states.len() > 0,
        forall|i: int| 0 <= i < states.len() ==> (#[trigger] states[i]).wf(),
        forall|i: int| 0 <= i < states.len() - 1 ==> moving_step(#[trigger] states[i], states[i + 1]),
    ensures
        states.last().balances.total() == states[0].balances.total(),
    decreases states.len(),
{
    if states.len() > 1 {
        let pre = states.drop_last();
        assert forall|i: int| 0 <= i < pre.len() - 1 implies moving_step(#[trigger] pre[i], pre[i + 1]) by {
            assert(moving_step(states[i], states[i + 1]));
        }
        law_moving_steps_conserve(pre);
        let a = states[states.len() - 2];
        let b = states.last();
        assert(moving_step(a, b));
        assert(b.balances.total() == a.balances.total());
    }
}

/// Only mint changes the sum upward, and by exactly the minted amount; a
/// failed mint changes nothing.
pub proof fn law_mint_adds_exactly(old: Ledger, next: Ledger, sender: Seq<char>, to: Seq<char>, amount: u128, r: Result<(), ContractError>)
    requires
        old.wf(),
        next.wf(),
        Ledger::mint_spec(old, next, sender, to, amount, r),
    ensures
        r is Ok ==> next.balances.total() == old.balances.total() + amount,
        r is Err ==> next.balances.total() == old.balances.total(),
{
}

/// Burn lowers the sum by exactly the burned amount; a failed burn changes
/// nothing.
pub proof fn law_burn_removes_exactly(old: Ledger, next: Ledger, sender: Seq<char>, amount: u128, r: Result<(), ContractError>)
    requires
        old.wf(),
        next.wf(),
        Ledger::burn_spec(old, next, sender, amount, r),
    ensures
        r is Ok ==> next.balances.total() + amount == old.balances.total(),
        r is Err ==> next.balances.total() == old.balances.total(),
{
}

/// Burn-from lowers the sum by exactly the burned amount; a failed one
/// changes nothing.
pub proof fn law_burn_from_removes_exactly(old: Ledger, next: Ledger, sender: Seq<char>, owner: Seq<char>, amount: u128, block: BlockInfo, r: Result<(), ContractError>)
    requires
        old.wf(),
        next.wf(),
        Ledger::burn_from_spec(old, next, sender, owner, amount, block, r),
    ensures
        r is Ok ==> next.balances.total() + amount == old.balances.total(),
        r is Err ==> next.balances.total() == old.balances.total(),
{
}

/// Non-negativity: a transfer succeeds only when the sender holds the
/// amount, and then leaves it exactly the difference; otherwise it fails
/// with `InsufficientFunds`.
pub proof fn law_transfer_never_overdraws(old: Ledger, next: Ledger, from: Seq<char>, to: Seq<char>, amount: u128, r: Result<(), ContractError>)
    requires
        Ledger::transfer_spec(old, next, from, to, amount, r),
        from != to,
    ensures
        r is Ok <==> amount <= old.balance(from),
        r is Ok ==> next.balance(from) == old.balance(from) - amount,
        r is Err ==> r == Err::<(), ContractError>(ContractError::InsufficientFunds),
{
    if r is Ok {
        assert(next.balances.balance(from) + amount == old.balances.balance(from));
    }
}

/// Non-negativity: a spend out of an allowance succeeds only when both the
/// allowance and the owner's balance cover it, and leaves the allowance
/// exactly the difference.
pub proof fn law_spend_never_overdraws(old: Ledger, next: Ledger, spender: Seq<char>, owner: Seq<char>, to: Seq<char>, amount: u128, block: BlockInfo, r: Result<(), ContractError>)
    requires
        Ledger::transfer_from_spec(old, next, spender, owner, to, amount, block, r),
    ensures
        r is Ok ==> old.allowances.grant(owner, spender) is Some
            && amount <= old.allowances.grant(owner, spender)->Some_0.allowance
            && amount <= old.balance(owner)
            && next.allowances.grant(owner, spender) == Some(old.allowances.spent(owner, spender, amount))
            && next.allowances.grant(owner, spender)->Some_0.allowance
                == old.allowances.grant(owner, spender)->Some_0.allowance - amount,
{
}

/// Authorization: update-config by a non-admin fails with `Unauthorized`
/// and leaves the ledger as it was.
pub proof fn law_update_config_needs_admin(old: Ledger, next: Ledger, sender: Seq<char>, new_admins: Option<Vec<Result<String, String>>>, r: Result<(), ContractError>)
    requires
        Ledger::config_spec(old, next, sender, new_admins, r),
        !old.config.spec_is_admin(sender),
    ensures
        r == Err::<(), ContractError>(ContractError::Unauthorized),
        next == old,
{
    assert(next.config == old.config);
}

/// Authorization: where burning is gated, burn by a non-admin fails with
/// `Unauthorized` and leaves the ledger as it was.
pub proof fn law_burn_needs_admin(old: Ledger, next: Ledger, sender: Seq<char>, amount: u128, r: Result<(), ContractError>)
    requires
        old.admin_gated_burn,
        Ledger::burn_spec(old, next, sender, amount, r),
        !old.config.spec_is_admin(sender),
    ensures
        r == Err::<(), ContractError>(ContractError::Unauthorized),
        next == old,
{
}

/// Authorization: where burning is gated, burn-from by a non-admin fails
/// with `Unauthorized` and leaves the ledger as it was.
pub proof fn law_burn_from_needs_admin(old: Ledger, next: Ledger, sender: Seq<char>, owner: Seq<char>, amount: u128, block: BlockInfo, r: Result<(), ContractError>)
    requires
        old.admin_gated_burn,
        Ledger::burn_from_spec(old, next, sender, owner, amount, block, r),
        !old.config.spec_is_admin(sender),
    ensures
        r == Err::<(), ContractError>(ContractError::Unauthorized),
        next == old,
{
}

/// Where burning is gated, an admin burns from any holder without an
/// allowance: the holder's balance and the total supply drop by the amount
/// when it is covered; otherwise it fails with `InsufficientFunds` and the
/// ledger stays as it was.
pub proof fn law_admin_burn_from_needs_no_allowance(old: Ledger, next: Ledger, sender: Seq<char>, owner: Seq<char>, amount: u128, block: BlockInfo, r: Result<(), ContractError>)
    requires
        old.wf(),
        next.wf(),
        old.admin_gated_burn,
        old.config.spec_is_admin(sender),
        Ledger::burn_from_spec(old, next, sender, owner, amount, block, r),
    ensures
        amount <= old.balance(owner) ==> r is Ok
            && next.balance(owner) == old.balance(owner) - amount
            && next.token.total_supply == old.token.total_supply - amount
            && next.balances.total() + amount == old.balances.total()
            && next.allowances == old.allowances,
        amount > old.balance(owner) ==> r == Err::<(), ContractError>(ContractError::InsufficientFunds)
            && next == old,
{
}

/// Authorization: withdrawal by a non-admin fails with `Unauthorized`; it
/// never changes the ledger.
pub proof fn law_withdraw_needs_admin(l: Ledger, sender: Seq<char>, denom: String, amount: u128, recipient: String, quote: Option<TaxQuote>, r: Result<BankTransfer, ContractError>)
    requires
        withdraw_spec(l, sender, denom, amount, recipient, quote, r),
        !l.config.spec_is_admin(sender),
    ensures
        r is Err && r->Err_0 == ContractError::Unauthorized,
{
}

/// Cap enforcement: a mint by the minter that would take the total supply
/// past the cap fails with `CapExceeded` and leaves the supply as it was.
pub proof fn law_mint_respects_cap(old: Ledger, next: Ledger, sender: Seq<char>, to: Seq<char>, amount: u128, r: Result<(), ContractError>)
    requires
        Ledger::mint_spec(old, next, sender, to, amount, r),
        old.token.mint is Some,
        old.token.mint->Some_0.minter@ == sender,
        old.token.spec_cap() is Some,
        old.token.total_supply + amount > old.token.spec_cap()->Some_0,
    ensures
        r == Err::<(), ContractError>(ContractError::CapExceeded),
        next.token.total_supply == old.token.total_supply,
        next == old,
{
}

/// Cap enforcement: no successful mint leaves the total supply past the cap.
pub proof fn law_mint_stays_within_cap(old: Ledger, next: Ledger, sender: Seq<char>, to: Seq<char>, amount: u128)
    requires
        old.wf(),
        Ledger::mint_spec(old, next, sender, to, amount, Ok(())),
    ensures
        next.token.within_cap(),
{
}

/// Allowance lifecycle: increasing an allowance and then decreasing it by at
/// least what it holds leaves none (zero, never negative), and any later
/// spend of it fails with `NoAllowance`.
pub proof fn law_allowance_clamps_to_zero(
    l0: Ledger,
    l1: Ledger,
    l2: Ledger,
    owner: Seq<char>,
    spender: Seq<char>,
    added: u128,
    expires: Option<Expiration>,
    removed: u128,
    expires2: Option<Expiration>,
    r2: Result<(), ContractError>,
    amount: u128,
    block: BlockInfo,
)
    requires
        Ledger::increase_spec(l0, l1, owner, spender, added, expires, Ok(())),
        Ledger::decrease_spec(l1, l2, owner, spender, removed, expires2, r2),
        removed >= l1.allowances.grant_or_default(owner, spender).allowance,
    ensures
        r2 is Ok,
        l2.allowances.grant(owner, spender) is None,
        l2.allowances.grant_or_default(owner, spender).allowance == 0,
        l2.allowances.spend_outcome(owner, spender, amount, block) == Err::<(), ContractError>(
            ContractError::NoAllowance,
        ),
        l2.spend_then_debit_outcome(owner, spender, amount, block) == Err::<(), ContractError>(
            ContractError::NoAllowance,
        ),
{
}

/// An update-config by an admin with no replacement list succeeds and keeps
/// the admins.
pub proof fn law_noop_config_update(old: Ledger, next: Ledger, sender: Seq<char>, r: Result<(), ContractError>)
    requires
        Ledger::config_spec(old, next, sender, None, r),
        old.config.spec_is_admin(sender),
    ensures
        r is Ok,
        next.config == old.config,
        next == old,
{
}

} // verus!
