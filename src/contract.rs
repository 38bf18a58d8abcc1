use vstd::prelude::*;
use crate::admin::{copy_config, Config};
use crate::allowances::{Allowance, AllowanceStore};
use crate::balances::{holding_of, lemma_sum_prefix, sum_of, BalanceStore};
use crate::error::{ContractError, ValidationIssue};
use crate::expiration::{BlockInfo, Expiration};
use crate::ledger::{unit_of, Ledger, ReceiveCallback};
use crate::tax::{deduct_tax, rate_overflows, tax_on, untaxed_denom, TaxQuote};
use crate::token::{token_issue, validate_token, MinterData, TokenInfo};

verus! {

/// The name this contract stores for itself; migration only accepts a
/// contract stored under the same name.
pub const CONTRACT_NAME: &'static str = "terraleaf.io:tleaf-token";

pub open spec fn contract_name() -> Seq<char> {
    CONTRACT_NAME@
}

/// What instantiation is given. Admin addresses come after validation:
/// `Ok(address)`, or `Err(input)` for one that failed. Initial balances and
/// the minter come validated.
pub struct InstantiateMsg {
    pub admins: Vec<Result<String, String>>,
    pub name: String,
    pub symbol: String,
    pub decimals: u8,
    pub initial_balances: Vec<(String, u128)>,
    pub mint: Option<MinterData>,
    pub admin_gated_burn: bool,
}

pub open spec fn all_ok(s: Seq<Result<String, String>>) -> bool {
    forall|i: int| 0 <= i < s.len() ==> #[trigger] s[i] is Ok
}

/// `r` fails with the first address of `s` that failed validation.
pub open spec fn first_invalid(s: Seq<Result<String, String>>, r: ContractError) -> bool {
    exists|i: int|
        0 <= i < s.len() && s[i] is Err && r == (ContractError::InvalidAddress { address: s[i]->Err_0 })
            && forall|j: int| 0 <= j < i ==> #[trigger] s[j] is Ok
}

/// The cap that `msg` sets, if any.
pub open spec fn msg_cap(msg: InstantiateMsg) -> Option<u128> {
    match msg.mint {
        Some(m) => m.cap,
        None => None,
    }
}

/// The ledger that a successful instantiation leaves.
pub open spec fn instantiated(msg: InstantiateMsg, l: Ledger) -> bool {
    &&& l.wf()
    &&& l.config.admins@.len() == msg.admins@.len()
    &&& forall|i: int| 0 <= i < msg.admins@.len() ==> msg.admins@[i] == Ok::<String, String>(#[trigger] l.config.admins@[i])
    &&& l.token.name == msg.name
    &&& l.token.symbol == msg.symbol
    &&& l.token.decimals == msg.decimals
    &&& l.token.mint == msg.mint
    &&& l.token.total_supply == sum_of(msg.initial_balances@)
    &&& forall|a: Seq<char>| #[trigger] l.balance(a) == holding_of(msg.initial_balances@, a)
    &&& forall|o: Seq<char>, s: Seq<char>| #[trigger] l.allowances.grant(o, s) is None
    &&& l.admin_gated_burn == msg.admin_gated_burn
}

/// Builds the ledger: the admin list must be non-empty and valid, the token
/// info well formed, and the initial balances, which become the total
/// supply, must fit in 128 bits and within the cap. Each failure is checked
/// in that order.
pub fn instantiate(msg: InstantiateMsg) -> (r: Result<Ledger, ContractError>)
    ensures
        msg.admins@.len() == 0 ==> r == Err::<Ledger, ContractError>(
            ContractError::Validation { issue: ValidationIssue::EmptyAdmins },
        ),
        msg.admins@.len() > 0 && !all_ok(msg.admins@) ==> r is Err && first_invalid(msg.admins@, r->Err_0),
        msg.admins@.len() > 0 && all_ok(msg.admins@) ==> match token_issue(msg.name@, msg.symbol@, msg.decimals) {
            Some(issue) => r == Err::<Ledger, ContractError>(ContractError::Validation { issue }),
            None => if msg_cap(msg) is Some && sum_of(msg.initial_balances@) > msg_cap(msg)->Some_0 {
                r == Err::<Ledger, ContractError>(
                    ContractError::Validation { issue: ValidationIssue::InitialSupplyOverCap },
                )
            } else if sum_of(msg.initial_balances@) > u128::MAX {
                r == Err::<Ledger, ContractError>(ContractError::ArithmeticOverflow)
            } else {
                r is Ok && instantiated(msg, r->Ok_0)
            },
        },
{
    if msg.admins.len() == 0 {
        return Err(ContractError::Validation { issue: ValidationIssue::EmptyAdmins });
    }
    let admins = match crate::admin::validated_addrs(&msg.admins) {
        Ok(a) => a,
        Err(bad) => {
            return Err(ContractError::InvalidAddress { address: bad });
        },
    };
    validate_token(&msg.name, &msg.symbol, msg.decimals)?;
    let cap = match &msg.mint {
        Some(m) => m.cap,
        None => None,
    };
    let initial = &msg.initial_balances;
    let mut balances = BalanceStore::new();
    let mut total: u128 = 0;
    let mut i: usize = 0;
    while i < initial.len()
        invariant
            i <= initial@.len(),
            initial == &msg.initial_balances,
            cap == msg_cap(msg),
            msg.admins@.len() > 0,
            all_ok(msg.admins@),
            token_issue(msg.name@, msg.symbol@, msg.decimals) is None,
            balances.wf(),
            balances.total() == total,
            total == sum_of(initial@.subrange(0, i as int)),
            forall|a: Seq<char>| #[trigger] balances.balance(a) == holding_of(initial@.subrange(0, i as int), a),
        decreases initial@.len() - i,
    {
        let row = &initial[i];
        let next_total = match total.checked_add(row.1) {
            Some(t) => t,
            None => {
                proof {
                    let p = initial@.subrange(0, i + 1);
                    assert(p.drop_last() =~= initial@.subrange(0, i as int));
                    lemma_sum_prefix(initial@, i + 1);
                }
                if cap.is_some() {
                    return Err(ContractError::Validation { issue: ValidationIssue::InitialSupplyOverCap });
                }
                return Err(ContractError::ArithmeticOverflow);
            },
        };
        proof {
            balances.lemma_balance_le_total(row.0@);
        }
        let cur = balances.get(&row.0);
        balances.set(&row.0, cur + row.1);
        proof {
            let p = initial@.subrange(0, i + 1);
            assert(p.drop_last() =~= initial@.subrange(0, i as int));
            assert(p.last() == initial@[i as int]);
        }
        total = next_total;
        i += 1;
    }
    assert(initial@.subrange(0, i as int) =~= initial@);
    if let Some(c) = cap {
        if total > c {
            return Err(ContractError::Validation { issue: ValidationIssue::InitialSupplyOverCap });
        }
    }
    let token = TokenInfo {
        name: msg.name,
        symbol: msg.symbol,
        decimals: msg.decimals,
        total_supply: total,
        mint: msg.mint,
    };
    Ok(Ledger {
        config: Config { admins },
        token,
        balances,
        allowances: AllowanceStore::new(),
        admin_gated_burn: msg.admin_gated_burn,
    })
}

/// Migration is allowed only from a contract stored under this contract's
/// name.
pub fn migrate(stored_contract: &String) -> (r: Result<(), ContractError>)
    ensures
        stored_contract@ == contract_name() ==> r is Ok,
        stored_contract@ != contract_name() ==> r == Err::<(), ContractError>(
            ContractError::CannotMigrate { previous_contract: *stored_contract },
        ),
{
    let expected = CONTRACT_NAME.to_string();
    if *stored_contract == expected {
        Ok(())
    } else {
        Err(ContractError::CannotMigrate { previous_contract: stored_contract.clone() })
    }
}

/// A transfer of native coins, made after the operation commits.
pub struct BankTransfer {
    pub to_address: String,
    pub denom: String,
    pub amount: u128,
}

/// What is left of `amount` of `denom` after tax at `quote`; `None` where
/// the tax cannot be computed.
pub open spec fn net_of_tax(amount: u128, denom: Seq<char>, quote: Option<TaxQuote>) -> Option<nat> {
    if denom == untaxed_denom() {
        Some(amount as nat)
    } else if rate_overflows(quote->Some_0) {
        None
    } else {
        Some((amount - tax_on(amount, quote->Some_0)) as nat)
    }
}

/// The outcome of a withdrawal of locked funds.
pub open spec fn withdraw_spec(l: Ledger, sender: Seq<char>, denom: String, amount: u128, recipient: String, quote: Option<TaxQuote>, r: Result<BankTransfer, ContractError>) -> bool {
    if !l.config.spec_is_admin(sender) {
        r == Err::<BankTransfer, ContractError>(ContractError::Unauthorized)
    } else {
        match net_of_tax(amount, denom@, quote) {
            None => r == Err::<BankTransfer, ContractError>(ContractError::ArithmeticOverflow),
            Some(net) => r is Ok && r->Ok_0.to_address == recipient && r->Ok_0.denom == denom
                && r->Ok_0.amount == net,
        }
    }
}

/// Admin-only: sends `amount` of the native `denom` that the contract holds
/// to `recipient`, less the tax on it. `quote` is the rate and cap for
/// `denom`, needed only where an admin withdraws a taxed denomination.
pub fn execute_withdraw_locked_funds(ledger: &Ledger, sender: &String, denom: String, amount: u128, recipient: String, quote: Option<TaxQuote>) -> (r: Result<BankTransfer, ContractError>)
    requires
        ledger.config.spec_is_admin(sender@) && denom@ != untaxed_denom() ==> quote is Some,
    ensures
        withdraw_spec(*ledger, sender@, denom, amount, recipient, quote, r),
{
    if !ledger.is_admin(sender) {
        return Err(ContractError::Unauthorized);
    }
    match deduct_tax(amount, &denom, quote) {
        Ok(net) => Ok(BankTransfer { to_address: recipient, denom, amount: net }),
        Err(e) => Err(e),
    }
}

/// update-config: admin-only replacement of the admin list.
pub fn execute_update_config(ledger: &mut Ledger, sender: &String, new_admins: Option<Vec<Result<String, String>>>) -> (r: Result<(), ContractError>)
    requires
        old(ledger).wf(),
    ensures
        final(ledger).wf(),
        Ledger::config_spec(*old(ledger), *final(ledger), sender@, new_admins, r),
{
    ledger.update_config(sender, new_admins)
}

/// burn of the sender's own tokens, admin-only where burning is gated.
pub fn execute_burn(ledger: &mut Ledger, sender: &String, amount: u128) -> (r: Result<(), ContractError>)
    requires
        old(ledger).wf(),
    ensures
        final(ledger).wf(),
        Ledger::burn_spec(*old(ledger), *final(ledger), sender@, amount, r),
{
    ledger.burn(sender, amount)
}

/// burn-from: by an admin on any holder where burning is gated, else out of
/// an allowance.
pub fn execute_burn_from(ledger: &mut Ledger, sender: &String, owner: &String, amount: u128, block: &BlockInfo) -> (r: Result<(), ContractError>)
    requires
        old(ledger).wf(),
    ensures
        final(ledger).wf(),
        Ledger::burn_from_spec(*old(ledger), *final(ledger), sender@, owner@, amount, *block, r),
{
    ledger.burn_from(sender, owner, amount, block)
}

/// The operations a caller can ask for, with addresses validated (but for a
/// replacement admin list: see `InstantiateMsg`).
pub enum ExecuteMsg {
    UpdateConfig { admins: Option<Vec<Result<String, String>>> },
    Transfer { recipient: String, amount: u128 },
    Burn { amount: u128 },
    Send { contract: String, amount: u128, msg: Vec<u8> },
    Mint { recipient: String, amount: u128 },
    IncreaseAllowance { spender: String, amount: u128, expires: Option<Expiration> },
    DecreaseAllowance { spender: String, amount: u128, expires: Option<Expiration> },
    TransferFrom { owner: String, recipient: String, amount: u128 },
    BurnFrom { owner: String, amount: u128 },
    SendFrom { owner: String, contract: String, amount: u128, msg: Vec<u8> },
    WithdrawLockedFunds { denom: String, amount: u128, recipient: String },
}

/// A message to deliver once the operation has committed.
pub enum OutboundMsg {
    Receive(ReceiveCallback),
    Bank(BankTransfer),
}

/// A withdrawal of a taxed denomination needs a tax quote (where an admin
/// asks for it).
pub open spec fn quote_needed(msg: &ExecuteMsg) -> bool {
    match msg {
        ExecuteMsg::WithdrawLockedFunds { denom, .. } => denom@ != untaxed_denom(),
        _ => false,
    }
}

pub open spec fn callback_is(m: Option<OutboundMsg>, contract: Seq<char>, sender: Seq<char>, amount: u128, msg: Seq<u8>) -> bool {
    match m {
        Some(OutboundMsg::Receive(cb)) => cb.contract@ == contract && cb.sender@ == sender && cb.amount == amount
            && cb.msg@ == msg,
        _ => false,
    }
}

/// Runs one operation for `sender` at `block`. Each variant has the contract
/// of the ledger operation it names; a failure leaves the ledger as it was.
pub fn execute(ledger: &mut Ledger, sender: &String, block: &BlockInfo, msg: ExecuteMsg, quote: Option<TaxQuote>) -> (r: Result<Option<OutboundMsg>, ContractError>)
    requires
        old(ledger).wf(),
        quote_needed(&msg) && old(ledger).config.spec_is_admin(sender@) ==> quote is Some,
    ensures
        final(ledger).wf(),
        match msg {
            ExecuteMsg::UpdateConfig { admins } => Ledger::config_spec(*old(ledger), *final(ledger), sender@, admins, unit_of(r))
                && (r is Ok ==> r->Ok_0 is None),
            ExecuteMsg::Transfer { recipient, amount } => Ledger::transfer_spec(*old(ledger), *final(ledger), sender@, recipient@, amount, unit_of(r))
                && (r is Ok ==> r->Ok_0 is None),
            ExecuteMsg::Burn { amount } => Ledger::burn_spec(*old(ledger), *final(ledger), sender@, amount, unit_of(r))
                && (r is Ok ==> r->Ok_0 is None),
            ExecuteMsg::Send { contract, amount, msg } => Ledger::transfer_spec(*old(ledger), *final(ledger), sender@, contract@, amount, unit_of(r))
                && (r is Ok ==> callback_is(r->Ok_0, contract@, sender@, amount, msg@)),
            ExecuteMsg::Mint { recipient, amount } => Ledger::mint_spec(*old(ledger), *final(ledger), sender@, recipient@, amount, unit_of(r))
                && (r is Ok ==> r->Ok_0 is None),
            ExecuteMsg::IncreaseAllowance { spender, amount, expires } => Ledger::increase_spec(*old(ledger), *final(ledger), sender@, spender@, amount, expires, unit_of(r))
                && (r is Ok ==> r->Ok_0 is None),
            ExecuteMsg::DecreaseAllowance { spender, amount, expires } => Ledger::decrease_spec(*old(ledger), *final(ledger), sender@, spender@, amount, expires, unit_of(r))
                && (r is Ok ==> r->Ok_0 is None),
            ExecuteMsg::TransferFrom { owner, recipient, amount } => Ledger::transfer_from_spec(*old(ledger), *final(ledger), sender@, owner@, recipient@, amount, *block, unit_of(r))
                && (r is Ok ==> r->Ok_0 is None),
            ExecuteMsg::BurnFrom { owner, amount } => Ledger::burn_from_spec(*old(ledger), *final(ledger), sender@, owner@, amount, *block, unit_of(r))
                && (r is Ok ==> r->Ok_0 is None),
            ExecuteMsg::SendFrom { owner, contract, amount, msg } => Ledger::transfer_from_spec(*old(ledger), *final(ledger), sender@, owner@, contract@, amount, *block, unit_of(r))
                && (r is Ok ==> callback_is(r->Ok_0, contract@, sender@, amount, msg@)),
            ExecuteMsg::WithdrawLockedFunds { denom, amount, recipient } => *final(ledger) == *old(ledger)
                && match r {
                    Ok(Some(OutboundMsg::Bank(b))) => withdraw_spec(*old(ledger), sender@, denom, amount, recipient, quote, Ok(b)),
                    Ok(_) => false,
                    Err(e) => withdraw_spec(*old(ledger), sender@, denom, amount, recipient, quote, Err(e)),
                },
        },
{
    match msg {
        ExecuteMsg::UpdateConfig { admins } => {
            execute_update_config(ledger, sender, admins)?;
            Ok(None)
        },
        ExecuteMsg::Transfer { recipient, amount } => {
            ledger.transfer(sender, &recipient, amount)?;
            Ok(None)
        },
        ExecuteMsg::Burn { amount } => {
            execute_burn(ledger, sender, amount)?;
            Ok(None)
        },
        ExecuteMsg::Send { contract, amount, msg } => {
            let cb = ledger.send(sender, &contract, amount, msg)?;
            Ok(Some(OutboundMsg::Receive(cb)))
        },
        ExecuteMsg::Mint { recipient, amount } => {
            ledger.mint(sender, &recipient, amount)?;
            Ok(None)
        },
        ExecuteMsg::IncreaseAllowance { spender, amount, expires } => {
            ledger.increase_allowance(sender, &spender, amount, expires)?;
            Ok(None)
        },
        ExecuteMsg::DecreaseAllowance { spender, amount, expires } => {
            ledger.decrease_allowance(sender, &spender, amount, expires)?;
            Ok(None)
        },
        ExecuteMsg::TransferFrom { owner, recipient, amount } => {
            ledger.transfer_from(sender, &owner, &recipient, amount, block)?;
            Ok(None)
        },
        ExecuteMsg::BurnFrom { owner, amount } => {
            execute_burn_from(ledger, sender, &owner, amount, block)?;
            Ok(None)
        },
        ExecuteMsg::SendFrom { owner, contract, amount, msg } => {
            let cb = ledger.send_from(sender, &owner, &contract, amount, msg, block)?;
            Ok(Some(OutboundMsg::Receive(cb)))
        },
        ExecuteMsg::WithdrawLockedFunds { denom, amount, recipient } => {
            let b = execute_withdraw_locked_funds(ledger, sender, denom, amount, recipient, quote)?;
            Ok(Some(OutboundMsg::Bank(b)))
        },
    }
}

/// The admin list.
pub fn query_config(ledger: &Ledger) -> (r: Config)
    ensures
        r.admins@ == ledger.config.admins@,
{
    copy_config(&ledger.config)
}

/// Token metadata and total supply.
pub struct TokenInfoResponse {
    pub name: String,
    pub symbol: String,
    pub decimals: u8,
    pub total_supply: u128,
}

/// The minter and its cap.
pub struct MinterResponse {
    pub minter: String,
    pub cap: Option<u128>,
}

/// The read-only questions a caller can ask.
pub enum QueryMsg {
    Config,
    Balance { address: String },
    TokenInfo,
    Minter,
    Allowance { owner: String, spender: String },
}

pub enum QueryResponse {
    Config(Config),
    Balance(u128),
    TokenInfo(TokenInfoResponse),
    Minter(Option<MinterResponse>),
    Allowance(Allowance),
}

/// Answers a query from the current state; no authorization is needed.
pub fn query(ledger: &Ledger, msg: QueryMsg) -> (r: QueryResponse)
    requires
        ledger.wf(),
    ensures
        match msg {
            QueryMsg::Config => r matches QueryResponse::Config(c) && c.admins@ == ledger.config.admins@,
            QueryMsg::Balance { address } => r == QueryResponse::Balance(ledger.balance(address@) as u128),
            QueryMsg::TokenInfo => r == QueryResponse::TokenInfo(TokenInfoResponse {
                name: ledger.token.name,
                symbol: ledger.token.symbol,
                decimals: ledger.token.decimals,
                total_supply: ledger.token.total_supply,
            }),
            QueryMsg::Minter => r == QueryResponse::Minter(match ledger.token.mint {
                Some(m) => Some(MinterResponse { minter: m.minter, cap: m.cap }),
                None => None,
            }),
            QueryMsg::Allowance { owner, spender } => r == QueryResponse::Allowance(
                ledger.allowances.grant_or_default(owner@, spender@),
            ),
        },
{
    match msg {
        QueryMsg::Config => QueryResponse::Config(query_config(ledger)),
        QueryMsg::Balance { address } => QueryResponse::Balance(ledger.query_balance(&address)),
        QueryMsg::TokenInfo => QueryResponse::TokenInfo(TokenInfoResponse {
            name: ledger.token.name.clone(),
            symbol: ledger.token.symbol.clone(),
            decimals: ledger.token.decimals,
            total_supply: ledger.token.total_supply,
        }),
        QueryMsg::Minter => QueryResponse::Minter(match &ledger.token.mint {
            Some(m) => Some(MinterResponse { minter: m.minter.clone(), cap: m.cap }),
            None => None,
        }),
        QueryMsg::Allowance { owner, spender } => QueryResponse::Allowance(ledger.query_allowance(&owner, &spender)),
    }
}

} // verus!
