use tleaf_token::allowances::Allowance;
use tleaf_token::contract::{
    execute, execute_burn, execute_burn_from, execute_update_config, execute_withdraw_locked_funds,
    instantiate, migrate, query, query_config, ExecuteMsg, InstantiateMsg, OutboundMsg, QueryMsg,
    QueryResponse,
};
use tleaf_token::error::{ContractError, ValidationIssue};
use tleaf_token::expiration::{BlockInfo, Expiration};
use tleaf_token::ledger::Ledger;
use tleaf_token::tax::{compute_tax, deduct_tax, is_taxed_denom, TaxQuote};
use tleaf_token::token::MinterData;

fn s(x: &str) -> String {
    x.to_string()
}

fn block() -> BlockInfo {
    BlockInfo { height: 100, time_nanos: 1_000 }
}

fn msg_with(
    admins: Vec<&str>,
    balances: Vec<(&str, u128)>,
    mint: Option<MinterData>,
    gated: bool,
) -> InstantiateMsg {
    InstantiateMsg {
        admins: admins.into_iter().map(|a| Ok(s(a))).collect(),
        name: s("Leaf Token"),
        symbol: s("TLEAF"),
        decimals: 6,
        initial_balances: balances.into_iter().map(|(a, n)| (s(a), n)).collect(),
        mint,
        admin_gated_burn: gated,
    }
}

fn ledger(balances: Vec<(&str, u128)>, mint: Option<MinterData>, gated: bool) -> Ledger {
    instantiate(msg_with(vec!["A"], balances, mint, gated)).ok().unwrap()
}

fn bal(l: &Ledger, a: &str) -> u128 {
    l.query_balance(&s(a))
}

fn total(l: &Ledger) -> u128 {
    l.token.total_supply
}

#[test]
fn transfer_scenario() {
    let mut l = ledger(vec![("A", 1000)], None, true);
    assert_eq!(l.transfer(&s("A"), &s("B"), 300), Ok(()));
    assert_eq!(bal(&l, "A"), 700);
    assert_eq!(bal(&l, "B"), 300);
    assert_eq!(total(&l), 1000);
}

#[test]
fn mint_past_cap_scenario() {
    let mint = Some(MinterData { minter: s("M"), cap: Some(1000) });
    let mut l = ledger(vec![("A", 600), ("C", 400)], mint, true);
    assert_eq!(l.mint(&s("M"), &s("B"), 1), Err(ContractError::CapExceeded));
    assert_eq!(total(&l), 1000);
    assert_eq!(bal(&l, "B"), 0);
}

#[test]
fn transfer_from_over_allowance_scenario() {
    let mut l = ledger(vec![("A", 1000)], None, true);
    assert_eq!(l.increase_allowance(&s("A"), &s("S"), 100, None), Ok(()));
    assert_eq!(
        l.transfer_from(&s("S"), &s("A"), &s("C"), 150, &block()),
        Err(ContractError::InsufficientAllowance)
    );
    assert_eq!(bal(&l, "A"), 1000);
    assert_eq!(bal(&l, "C"), 0);
    assert_eq!(l.query_allowance(&s("A"), &s("S")).allowance, 100);
}

#[test]
fn non_admin_update_config_scenario() {
    let mut l = ledger(vec![("A", 1000)], None, true);
    let r = execute_update_config(&mut l, &s("X"), Some(vec![Ok(s("X"))]));
    assert_eq!(r, Err(ContractError::Unauthorized));
    assert_eq!(query_config(&l).admins, vec![s("A")]);
}

#[test]
fn conservation_over_several_moves() {
    let mut l = ledger(vec![("A", 500), ("B", 500)], None, false);
    assert_eq!(l.transfer(&s("A"), &s("B"), 120), Ok(()));
    assert_eq!(l.increase_allowance(&s("B"), &s("S"), 300, None), Ok(()));
    assert_eq!(l.transfer_from(&s("S"), &s("B"), &s("C"), 200, &block()), Ok(()));
    let cb = l.send(&s("C"), &s("K"), 50, vec![1, 2]).ok().unwrap();
    assert_eq!(cb.contract, s("K"));
    assert_eq!(cb.sender, s("C"));
    assert_eq!(cb.amount, 50);
    assert_eq!(cb.msg, vec![1, 2]);
    let sum = bal(&l, "A") + bal(&l, "B") + bal(&l, "C") + bal(&l, "K");
    assert_eq!(sum, 1000);
    assert_eq!(total(&l), 1000);
}

#[test]
fn mint_and_burn_change_supply_exactly() {
    let mint = Some(MinterData { minter: s("M"), cap: None });
    let mut l = ledger(vec![("A", 1000)], mint, true);
    assert_eq!(l.mint(&s("M"), &s("B"), 250), Ok(()));
    assert_eq!(total(&l), 1250);
    assert_eq!(bal(&l, "B"), 250);
    assert_eq!(execute_burn(&mut l, &s("A"), 100), Ok(()));
    assert_eq!(total(&l), 1150);
    assert_eq!(bal(&l, "A"), 900);
}

#[test]
fn mint_by_non_minter_is_unauthorized() {
    let mint = Some(MinterData { minter: s("M"), cap: None });
    let mut l = ledger(vec![("A", 10)], mint, true);
    assert_eq!(l.mint(&s("A"), &s("A"), 5), Err(ContractError::Unauthorized));
    let mut no_minter = ledger(vec![("A", 10)], None, true);
    assert_eq!(no_minter.mint(&s("A"), &s("A"), 5), Err(ContractError::Unauthorized));
}

#[test]
fn mint_overflow_is_an_error() {
    let mint = Some(MinterData { minter: s("M"), cap: None });
    let mut l = ledger(vec![("A", u128::MAX)], mint, true);
    assert_eq!(l.mint(&s("M"), &s("B"), 1), Err(ContractError::ArithmeticOverflow));
    assert_eq!(total(&l), u128::MAX);
}

#[test]
fn overdraw_is_insufficient_funds() {
    let mut l = ledger(vec![("A", 10)], None, true);
    assert_eq!(l.transfer(&s("A"), &s("B"), 11), Err(ContractError::InsufficientFunds));
    assert_eq!(bal(&l, "A"), 10);
    assert_eq!(bal(&l, "B"), 0);
}

#[test]
fn zero_and_self_transfers_are_allowed() {
    let mut l = ledger(vec![("A", 10)], None, true);
    assert_eq!(l.transfer(&s("A"), &s("B"), 0), Ok(()));
    assert_eq!(l.transfer(&s("A"), &s("A"), 10), Ok(()));
    assert_eq!(bal(&l, "A"), 10);
    assert_eq!(bal(&l, "B"), 0);
}

#[test]
fn privileged_ops_refuse_non_admins() {
    let mut l = ledger(vec![("A", 100), ("X", 100)], None, true);
    assert_eq!(execute_burn(&mut l, &s("X"), 10), Err(ContractError::Unauthorized));
    assert_eq!(
        execute_burn_from(&mut l, &s("X"), &s("A"), 10, &block()),
        Err(ContractError::Unauthorized)
    );
    let w = execute_withdraw_locked_funds(&l, &s("X"), s("uluna"), 10, s("X"), None);
    assert!(matches!(w, Err(ContractError::Unauthorized)));
    assert_eq!(bal(&l, "A"), 100);
    assert_eq!(bal(&l, "X"), 100);
    assert_eq!(total(&l), 200);
}

#[test]
fn admin_burn_from_needs_no_allowance() {
    let mut l = ledger(vec![("A", 100), ("O", 100)], None, true);
    assert_eq!(execute_burn_from(&mut l, &s("A"), &s("O"), 40, &block()), Ok(()));
    assert_eq!(bal(&l, "O"), 60);
    assert_eq!(total(&l), 160);
}

#[test]
fn ungated_burn_from_spends_allowance() {
    let mut l = ledger(vec![("O", 100)], None, false);
    assert_eq!(
        execute_burn_from(&mut l, &s("S"), &s("O"), 10, &block()),
        Err(ContractError::NoAllowance)
    );
    assert_eq!(l.increase_allowance(&s("O"), &s("S"), 30, None), Ok(()));
    assert_eq!(execute_burn_from(&mut l, &s("S"), &s("O"), 25, &block()), Ok(()));
    assert_eq!(bal(&l, "O"), 75);
    assert_eq!(total(&l), 75);
    assert_eq!(l.query_allowance(&s("O"), &s("S")).allowance, 5);
    assert_eq!(execute_burn(&mut l, &s("O"), 5), Ok(()));
    assert_eq!(total(&l), 70);
}

#[test]
fn allowance_clamps_to_zero_then_spend_fails() {
    let mut l = ledger(vec![("A", 1000)], None, true);
    assert_eq!(l.increase_allowance(&s("A"), &s("S"), 100, None), Ok(()));
    assert_eq!(l.decrease_allowance(&s("A"), &s("S"), 250, None), Ok(()));
    assert_eq!(
        l.query_allowance(&s("A"), &s("S")),
        Allowance { allowance: 0, expires: Expiration::Never }
    );
    assert_eq!(
        l.transfer_from(&s("S"), &s("A"), &s("C"), 1, &block()),
        Err(ContractError::NoAllowance)
    );
    assert_eq!(
        l.decrease_allowance(&s("A"), &s("S"), 1, None),
        Err(ContractError::NoAllowance)
    );
}

#[test]
fn allowance_partial_decrease_and_expiry() {
    let mut l = ledger(vec![("A", 1000)], None, true);
    assert_eq!(l.increase_allowance(&s("A"), &s("S"), 100, Some(Expiration::AtHeight(200))), Ok(()));
    assert_eq!(l.decrease_allowance(&s("A"), &s("S"), 30, None), Ok(()));
    assert_eq!(
        l.query_allowance(&s("A"), &s("S")),
        Allowance { allowance: 70, expires: Expiration::AtHeight(200) }
    );
    let late = BlockInfo { height: 200, time_nanos: 5 };
    assert_eq!(
        l.transfer_from(&s("S"), &s("A"), &s("C"), 10, &late),
        Err(ContractError::Expired)
    );
    assert_eq!(l.transfer_from(&s("S"), &s("A"), &s("C"), 70, &block()), Ok(()));
    assert_eq!(bal(&l, "C"), 70);
    assert_eq!(l.query_allowance(&s("A"), &s("S")).allowance, 0);
}

#[test]
fn allowance_at_time_expiry() {
    assert!(Expiration::AtTime(1_000).is_expired(&block()));
    assert!(!Expiration::AtTime(1_001).is_expired(&block()));
    assert!(!Expiration::Never.is_expired(&block()));
}

#[test]
fn own_allowance_is_refused() {
    let mut l = ledger(vec![("A", 1000)], None, true);
    assert_eq!(
        l.increase_allowance(&s("A"), &s("A"), 1, None),
        Err(ContractError::CannotSetOwnAccount)
    );
    assert_eq!(
        l.decrease_allowance(&s("A"), &s("A"), 1, None),
        Err(ContractError::CannotSetOwnAccount)
    );
}

#[test]
fn allowance_increase_overflow() {
    let mut l = ledger(vec![("A", 1)], None, true);
    assert_eq!(l.increase_allowance(&s("A"), &s("S"), u128::MAX, None), Ok(()));
    assert_eq!(
        l.increase_allowance(&s("A"), &s("S"), 1, None),
        Err(ContractError::ArithmeticOverflow)
    );
}

#[test]
fn send_from_emits_callback() {
    let mut l = ledger(vec![("A", 100)], None, true);
    assert_eq!(l.increase_allowance(&s("A"), &s("S"), 60, None), Ok(()));
    let cb = l.send_from(&s("S"), &s("A"), &s("K"), 60, vec![9], &block()).ok().unwrap();
    assert_eq!(cb.contract, s("K"));
    assert_eq!(cb.sender, s("S"));
    assert_eq!(cb.amount, 60);
    assert_eq!(bal(&l, "K"), 60);
    assert_eq!(bal(&l, "A"), 40);
}

#[test]
fn noop_config_update_keeps_admins() {
    let mut l = ledger(vec![("A", 1)], None, true);
    assert_eq!(execute_update_config(&mut l, &s("A"), None), Ok(()));
    assert_eq!(query_config(&l).admins, vec![s("A")]);
}

#[test]
fn config_update_replaces_admins() {
    let mut l = ledger(vec![("A", 1)], None, true);
    assert_eq!(
        execute_update_config(&mut l, &s("A"), Some(vec![])),
        Err(ContractError::Validation { issue: ValidationIssue::EmptyAdmins })
    );
    assert_eq!(
        execute_update_config(&mut l, &s("A"), Some(vec![Ok(s("B")), Err(s("bad!")), Err(s("x"))])),
        Err(ContractError::InvalidAddress { address: s("bad!") })
    );
    assert_eq!(query_config(&l).admins, vec![s("A")]);
    assert_eq!(execute_update_config(&mut l, &s("A"), Some(vec![Ok(s("B")), Ok(s("C"))])), Ok(()));
    assert_eq!(query_config(&l).admins, vec![s("B"), s("C")]);
    assert!(!l.is_admin(&s("A")));
    assert!(l.is_admin(&s("C")));
}

#[test]
fn instantiate_validation_errors() {
    let empty = instantiate(msg_with(vec![], vec![], None, true));
    assert!(matches!(
        empty,
        Err(ContractError::Validation { issue: ValidationIssue::EmptyAdmins })
    ));
    let mut bad_admin = msg_with(vec!["A"], vec![], None, true);
    bad_admin.admins.push(Err(s("??")));
    assert!(matches!(instantiate(bad_admin), Err(ContractError::InvalidAddress { address }) if address == "??"));
    let mut m = msg_with(vec!["A"], vec![], None, true);
    m.name = s("ab");
    assert!(matches!(instantiate(m), Err(ContractError::Validation { issue: ValidationIssue::NameFormat })));
    let mut m = msg_with(vec!["A"], vec![], None, true);
    m.symbol = s("T1K");
    assert!(matches!(instantiate(m), Err(ContractError::Validation { issue: ValidationIssue::SymbolFormat })));
    let mut m = msg_with(vec!["A"], vec![], None, true);
    m.symbol = s("ABCDEFGHIJKLM");
    assert!(matches!(instantiate(m), Err(ContractError::Validation { issue: ValidationIssue::SymbolFormat })));
    let mut m = msg_with(vec!["A"], vec![], None, true);
    m.decimals = 19;
    assert!(matches!(instantiate(m), Err(ContractError::Validation { issue: ValidationIssue::Decimals })));
}

#[test]
fn instantiate_supply_errors() {
    let over = instantiate(msg_with(vec!["A"], vec![("A", u128::MAX), ("B", 1)], None, true));
    assert!(matches!(over, Err(ContractError::ArithmeticOverflow)));
    let mint = Some(MinterData { minter: s("M"), cap: Some(100) });
    let capped = instantiate(msg_with(vec!["A"], vec![("A", 60), ("B", 41)], mint, true));
    assert!(matches!(
        capped,
        Err(ContractError::Validation { issue: ValidationIssue::InitialSupplyOverCap })
    ));
}

#[test]
fn instantiate_merges_repeated_accounts() {
    let l = ledger(vec![("A", 60), ("B", 10), ("A", 40)], None, true);
    assert_eq!(bal(&l, "A"), 100);
    assert_eq!(bal(&l, "B"), 10);
    assert_eq!(total(&l), 110);
}

#[test]
fn tax_is_computed_from_the_quote() {
    let q = TaxQuote { rate: 10_000_000_000_000_000, cap: 1_000_000 };
    assert_eq!(compute_tax(1_000_000, &s("uusd"), Some(q)), Ok(9_901));
    assert_eq!(deduct_tax(1_000_000, &s("uusd"), Some(q)), Ok(990_099));
    let capped = TaxQuote { rate: 10_000_000_000_000_000, cap: 5_000 };
    assert_eq!(compute_tax(1_000_000, &s("uusd"), Some(capped)), Ok(5_000));
    assert_eq!(compute_tax(1_000_000, &s("uluna"), Some(q)), Ok(0));
    assert_eq!(deduct_tax(1_000_000, &s("uluna"), None), Ok(1_000_000));
    let huge = TaxQuote { rate: u128::MAX, cap: 1 };
    assert_eq!(compute_tax(10, &s("uusd"), Some(huge)), Err(ContractError::ArithmeticOverflow));
    assert!(is_taxed_denom(&s("uusd")));
    assert!(!is_taxed_denom(&s("uluna")));
}

#[test]
fn tax_on_large_amount_needs_wide_product() {
    let q = TaxQuote { rate: 5_000_000_000_000_000, cap: u128::MAX };
    let amount: u128 = 1_000_000_000_000_000_000_000;
    let kept: u128 = 995_024_875_621_890_547_263;
    assert_eq!(deduct_tax(amount, &s("ukrw"), Some(q)), Ok(kept));
}

#[test]
fn withdraw_by_admin_deducts_tax() {
    let l = ledger(vec![("A", 1)], None, true);
    let q = TaxQuote { rate: 10_000_000_000_000_000, cap: 1_000_000 };
    let b = execute_withdraw_locked_funds(&l, &s("A"), s("uusd"), 1_000_000, s("R"), Some(q)).ok().unwrap();
    assert_eq!(b.to_address, s("R"));
    assert_eq!(b.denom, s("uusd"));
    assert_eq!(b.amount, 990_099);
    let untaxed = execute_withdraw_locked_funds(&l, &s("A"), s("uluna"), 500, s("R"), None).ok().unwrap();
    assert_eq!(untaxed.amount, 500);
}

#[test]
fn execute_dispatches() {
    let mut l = ledger(vec![("A", 100)], None, true);
    let r = execute(&mut l, &s("A"), &block(), ExecuteMsg::Transfer { recipient: s("B"), amount: 30 }, None);
    assert!(matches!(r, Ok(None)));
    let r = execute(
        &mut l,
        &s("A"),
        &block(),
        ExecuteMsg::Send { contract: s("K"), amount: 10, msg: vec![7] },
        None,
    );
    assert!(matches!(r, Ok(Some(OutboundMsg::Receive(cb))) if cb.amount == 10 && cb.contract == "K"));
    let r = execute(
        &mut l,
        &s("A"),
        &block(),
        ExecuteMsg::WithdrawLockedFunds { denom: s("uluna"), amount: 9, recipient: s("R") },
        None,
    );
    assert!(matches!(r, Ok(Some(OutboundMsg::Bank(b))) if b.amount == 9));
    let r = execute(&mut l, &s("B"), &block(), ExecuteMsg::Burn { amount: 1 }, None);
    assert!(matches!(r, Err(ContractError::Unauthorized)));
    assert_eq!(bal(&l, "A"), 60);
    assert_eq!(bal(&l, "B"), 30);
    assert_eq!(bal(&l, "K"), 10);
}

#[test]
fn queries_answer_from_state() {
    let mint = Some(MinterData { minter: s("M"), cap: Some(5000) });
    let mut l = ledger(vec![("A", 100)], mint, true);
    assert_eq!(l.increase_allowance(&s("A"), &s("S"), 7, None), Ok(()));
    assert!(matches!(query(&l, QueryMsg::Balance { address: s("A") }), QueryResponse::Balance(100)));
    assert!(matches!(query(&l, QueryMsg::Balance { address: s("Z") }), QueryResponse::Balance(0)));
    match query(&l, QueryMsg::TokenInfo) {
        QueryResponse::TokenInfo(t) => {
            assert_eq!(t.name, s("Leaf Token"));
            assert_eq!(t.symbol, s("TLEAF"));
            assert_eq!(t.decimals, 6);
            assert_eq!(t.total_supply, 100);
        }
        _ => panic!("wrong response"),
    }
    match query(&l, QueryMsg::Minter) {
        QueryResponse::Minter(Some(m)) => {
            assert_eq!(m.minter, s("M"));
            assert_eq!(m.cap, Some(5000));
        }
        _ => panic!("wrong response"),
    }
    assert!(matches!(
        query(&l, QueryMsg::Allowance { owner: s("A"), spender: s("S") }),
        QueryResponse::Allowance(Allowance { allowance: 7, expires: Expiration::Never })
    ));
    assert!(matches!(query(&l, QueryMsg::Config), QueryResponse::Config(c) if c.admins == vec![s("A")]));
}

#[test]
fn migrate_checks_stored_name() {
    assert_eq!(migrate(&s("terraleaf.io:tleaf-token")), Ok(()));
    assert_eq!(
        migrate(&s("crates.io:cw20-base")),
        Err(ContractError::CannotMigrate { previous_contract: s("crates.io:cw20-base") })
    );
}

#[test]
fn mint_past_cap_that_would_also_overflow_is_cap_exceeded() {
    let mint = Some(MinterData { minter: s("M"), cap: Some(1000) });
    let mut l = ledger(vec![("A", 900)], mint, true);
    assert_eq!(l.mint(&s("M"), &s("B"), u128::MAX), Err(ContractError::CapExceeded));
    assert_eq!(total(&l), 900);
    assert_eq!(bal(&l, "B"), 0);
    assert_eq!(l.mint(&s("M"), &s("B"), 100), Ok(()));
    assert_eq!(total(&l), 1000);
}

#[test]
fn initial_supply_overflowing_with_cap_is_over_cap() {
    let mint = Some(MinterData { minter: s("M"), cap: Some(100) });
    let r = instantiate(msg_with(vec!["A"], vec![("A", u128::MAX), ("B", 1)], mint, true));
    assert!(matches!(
        r,
        Err(ContractError::Validation { issue: ValidationIssue::InitialSupplyOverCap })
    ));
}

#[test]
fn non_admin_withdraw_of_taxed_denom_needs_no_quote() {
    let l = ledger(vec![("A", 1)], None, true);
    let w = execute_withdraw_locked_funds(&l, &s("X"), s("uusd"), 10, s("X"), None);
    assert!(matches!(w, Err(ContractError::Unauthorized)));
}

#[test]
fn well_formedness_is_checked() {
    let mut l = ledger(vec![("A", 10), ("B", 5)], None, true);
    assert!(l.check_wf());
    l.token.total_supply = 14;
    assert!(!l.check_wf());
    l.token.total_supply = 15;
    l.balances.rows.push((s("A"), 0));
    assert!(!l.check_wf());
    l.balances.rows.pop();
    assert!(l.check_wf());
    assert_eq!(l.increase_allowance(&s("A"), &s("S"), 3, None), Ok(()));
    assert!(l.check_wf());
    l.config.admins.clear();
    assert!(!l.check_wf());
}
