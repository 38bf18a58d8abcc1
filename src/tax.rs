use vstd::prelude::*;
use crate::error::ContractError;

verus! {

/// The scale of the fixed-point tax rate: 10^18 stands for 1.
pub const DECIMAL_FRACTION: u128 = 1_000_000_000_000_000_000;

/// The denomination that is never taxed.
pub open spec fn untaxed_denom() -> Seq<char> {
    seq!['u', 'l', 'u', 'n', 'a']
}

/// A tax rate (fixed point, scaled by 10^18) and the largest tax taken on one
/// transfer of a denomination.
#[derive(Clone, Copy, Debug, PartialEq, Eq, Structural)]
pub struct TaxQuote {
    pub rate: u128,
    pub cap: u128,
}

/// The tax on `amount` at `q`: `min(cap, amount - amount * F / (F + rate))`,
/// rounded down, where `F` is the fixed-point scale.
pub open spec fn tax_on(amount: u128, q: TaxQuote) -> nat {
    let kept = (amount as int * DECIMAL_FRACTION as int) / (DECIMAL_FRACTION as int + q.rate as int);
    let t = (amount as int - kept) as nat;
    if t <= q.cap {
        t
    } else {
        q.cap as nat
    }
}

/// The scale plus the rate does not fit in 128 bits.
pub open spec fn rate_overflows(q: TaxQuote) -> bool {
    DECIMAL_FRACTION as int + q.rate as int > u128::MAX
}

/// Relies on cosmwasm_std::Uint128::multiply_ratio: `a * num / den` rounded
/// down, with a 256-bit intermediate product; it panics on a zero
/// denominator or a quotient over 128 bits, both left out here.
#[verifier::external_body]
fn multiply_ratio(a: u128, num: u128, den: u128) -> (r: u128)
    requires
        den > 0,
        (a as int * num as int) / (den as int) <= u128::MAX,
    ensures
        r as int == (a as int * num as int) / (den as int),
{
    cosmwasm_std::Uint128::new(a).multiply_ratio(num, den).u128()
}

/// Whether `denom` pays tax, and so needs a quote.
pub fn is_taxed_denom(denom: &String) -> (r: bool)
    ensures
        r == (denom@ != untaxed_denom()),
{
    let untaxed = "uluna".to_string();
    proof {
        reveal_strlit("uluna");
        assert(untaxed@ =~= untaxed_denom());
    }
    !(*denom == untaxed)
}

/// The tax on `amount` of `quote`; fails where the rate is too large to
/// add to the scale.
pub fn tax_from_quote(amount: u128, quote: TaxQuote) -> (r: Result<u128, ContractError>)
    ensures
        rate_overflows(quote) ==> r == Err::<u128, ContractError>(ContractError::ArithmeticOverflow),
        !rate_overflows(quote) ==> r == Ok::<u128, ContractError>(tax_on(amount, quote) as u128),
        r is Ok ==> r->Ok_0 <= amount,
        !rate_overflows(quote) ==> tax_on(amount, quote) <= amount,
{
    if quote.rate > u128::MAX - DECIMAL_FRACTION {
        return Err(ContractError::ArithmeticOverflow);
    }
    let den = DECIMAL_FRACTION + quote.rate;
    proof {
        let p = amount as int * DECIMAL_FRACTION as int;
        assert(p / (den as int) <= amount) by (nonlinear_arith)
            requires
                p == amount as int * DECIMAL_FRACTION as int,
                den as int >= DECIMAL_FRACTION as int,
                DECIMAL_FRACTION > 0,
        {
            assert(p <= amount as int * den as int);
            vstd::arithmetic::div_mod::lemma_div_is_ordered(p, amount as int * den as int, den as int);
            vstd::arithmetic::div_mod::lemma_div_multiples_vanish(amount as int, den as int);
        }
    }
    let kept = multiply_ratio(amount, DECIMAL_FRACTION, den);
    let t = amount - kept;
    if t <= quote.cap {
        Ok(t)
    } else {
        Ok(quote.cap)
    }
}

/// The tax on a withdrawal of `amount` of `denom`: zero for the untaxed
/// denomination, else the tax at `quote`.
pub fn compute_tax(amount: u128, denom: &String, quote: Option<TaxQuote>) -> (r: Result<u128, ContractError>)
    requires
        denom@ != untaxed_denom() ==> quote is Some,
    ensures
        denom@ == untaxed_denom() ==> r == Ok::<u128, ContractError>(0),
        denom@ != untaxed_denom() ==> r == (if rate_overflows(quote->Some_0) {
            Err::<u128, ContractError>(ContractError::ArithmeticOverflow)
        } else {
            Ok::<u128, ContractError>(tax_on(amount, quote->Some_0) as u128)
        }),
        r is Ok ==> r->Ok_0 <= amount,
        denom@ != untaxed_denom() && !rate_overflows(quote->Some_0) ==> tax_on(amount, quote->Some_0) <= amount,
{
    if !is_taxed_denom(denom) {
        return Ok(0);
    }
    match quote {
        Some(q) => tax_from_quote(amount, q),
        None => Ok(0),
    }
}

/// What is left of `amount` of `denom` once its tax is taken.
pub fn deduct_tax(amount: u128, denom: &String, quote: Option<TaxQuote>) -> (r: Result<u128, ContractError>)
    requires
        denom@ != untaxed_denom() ==> quote is Some,
    ensures
        denom@ == untaxed_denom() ==> r == Ok::<u128, ContractError>(amount),
        denom@ != untaxed_denom() ==> r == (if rate_overflows(quote->Some_0) {
            Err::<u128, ContractError>(ContractError::ArithmeticOverflow)
        } else {
            Ok::<u128, ContractError>((amount - tax_on(amount, quote->Some_0)) as u128)
        }),
        denom@ != untaxed_denom() && !rate_overflows(quote->Some_0) ==> tax_on(amount, quote->Some_0) <= amount,
{
    let tax = compute_tax(amount, denom, quote)?;
    match amount.checked_sub(tax) {
        Some(v) => Ok(v),
        None => Err(ContractError::ArithmeticUnderflow),
    }
}

} // verus!
