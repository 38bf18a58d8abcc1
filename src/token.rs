use vstd::prelude::*;
use vstd::utf8::encode_utf8;
use crate::error::{ContractError, ValidationIssue};

verus! {

/// The minter and the optional bound on total supply.
pub struct MinterData {
    pub minter: String,
    pub cap: Option<u128>,
}

/// Token metadata and the supply tracker.
pub struct TokenInfo {
    pub name: String,
    pub symbol: String,
    pub decimals: u8,
    pub total_supply: u128,
    pub mint: Option<MinterData>,
}

impl TokenInfo {
    pub open spec fn spec_cap(&self) -> Option<u128> {
        match self.mint {
            Some(m) => m.cap,
            None => None,
        }
    }

    /// Total supply stays within the cap, where there is one.
    pub open spec fn within_cap(&self) -> bool {
        match self.spec_cap() {
            Some(c) => self.total_supply <= c,
            None => true,
        }
    }
}

/// A token name is 3 to 50 bytes of UTF-8.
pub open spec fn valid_name(b: Seq<u8>) -> bool {
    3 <= b.len() <= 50
}

pub open spec fn symbol_byte(c: u8) -> bool {
    c == 45 || (65 <= c <= 90) || (97 <= c <= 122)
}

/// A ticker symbol is 3 to 12 bytes, each a letter or `-`.
pub open spec fn valid_symbol(b: Seq<u8>) -> bool {
    &&& 3 <= b.len() <= 12
    &&& forall|i: int| 0 <= i < b.len() ==> #[trigger] symbol_byte(b[i])
}

/// The first problem with a token's name, symbol and decimals, if any.
pub open spec fn token_issue(name: Seq<char>, symbol: Seq<char>, decimals: u8) -> Option<ValidationIssue> {
    if !valid_name(encode_utf8(name)) {
        Some(ValidationIssue::NameFormat)
    } else if !valid_symbol(encode_utf8(symbol)) {
        Some(ValidationIssue::SymbolFormat)
    } else if decimals > 18 {
        Some(ValidationIssue::Decimals)
    } else {
        None
    }
}

pub fn is_valid_name(name: &String) -> (r: bool)
    ensures
        r == valid_name(encode_utf8(name@)),
{
    let b = name.as_str().as_bytes();
    b.len() >= 3 && b.len() <= 50
}

pub fn is_valid_symbol(symbol: &String) -> (r: bool)
    ensures
        r == valid_symbol(encode_utf8(symbol@)),
{
    let b = symbol.as_str().as_bytes();
    if b.len() < 3 || b.len() > 12 {
        return false;
    }
    let mut i: usize = 0;
    while i < b.len()
        invariant
            i <= b@.len(),
            b@ == encode_utf8(symbol@),
            forall|j: int| 0 <= j < i ==> #[trigger] symbol_byte(b@[j]),
        decreases b@.len() - i,
    {
        let c = b[i];
        if c != 45 && (c < 65 || c > 90) && (c < 97 || c > 122) {
            assert(!symbol_byte(b@[i as int]));
            return false;
        }
        i += 1;
    }
    true
}

/// Checks a token's name, symbol and decimals, in that order.
pub fn validate_token(name: &String, symbol: &String, decimals: u8) -> (r: Result<(), ContractError>)
    ensures
        match token_issue(name@, symbol@, decimals) {
            None => r is Ok,
            Some(issue) => r == Err::<(), ContractError>(ContractError::Validation { issue }),
        },
{
    if !is_valid_name(name) {
        return Err(ContractError::Validation { issue: ValidationIssue::NameFormat });
    }
    if !is_valid_symbol(symbol) {
        return Err(ContractError::Validation { issue: ValidationIssue::SymbolFormat });
    }
    if decimals > 18 {
        return Err(ContractError::Validation { issue: ValidationIssue::Decimals });
    }
    Ok(())
}

} // verus!
