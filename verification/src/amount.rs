//! Token deposits and gas allowances as plain integers in their smallest unit.

use vstd::prelude::*;

verus! {

/// Smallest token units (yocto) in one whole token.
pub const YOCTO_PER_TOKEN: u128 = 1_000_000_000_000_000_000_000_000;

/// Gas units in one teragas.
pub const GAS_PER_TERAGAS: u64 = 1_000_000_000_000;

/// The largest number of whole tokens whose yocto amount fits in `u128`.
pub const MAX_WHOLE_TOKENS: u128 = 340_282_366_920_938;

/// The largest number of teragas whose gas amount fits in `u64`.
pub const MAX_WHOLE_TERAGAS: u64 = 18_446_744;

/// Whole tokens attached to a call unless the caller chooses otherwise.
pub const STANDARD_DEPOSIT_TOKENS: u128 = 3;

/// Teragas allowed to a call unless the caller chooses otherwise.
pub const STANDARD_GAS_TERAGAS: u64 = 300;

/// The yocto amount of `tokens` whole tokens.
pub open spec fn yocto_amount(tokens: u128) -> int {
    tokens * YOCTO_PER_TOKEN
}

/// The gas amount of `teragas` teragas.
pub open spec fn gas_amount(teragas: u64) -> int {
    teragas * GAS_PER_TERAGAS
}

/// Trusted: `near_token::NearToken::from_near`, read back with
/// `as_yoctonear`. The constructor multiplies its argument by ten to the
/// twenty-fourth and `as_yoctonear` returns the stored number. The product
/// must fit: the outside multiplication is unchecked.
#[verifier::external_body]
fn yocto_of_tokens(tokens: u128) -> (yocto: u128)
    requires
        yocto_amount(tokens) <= u128::MAX,
    ensures
        yocto == yocto_amount(tokens),
{
    near_token::NearToken::from_near(tokens).as_yoctonear()
}

/// Trusted: `near_gas::NearGas::from_tgas`, read back with `as_gas`. The
/// constructor multiplies its argument by ten to the twelfth and `as_gas`
/// returns the stored number. The product must fit: the outside
/// multiplication is unchecked.
#[verifier::external_body]
fn gas_of_teragas(teragas: u64) -> (gas: u64)
    requires
        gas_amount(teragas) <= u64::MAX,
    ensures
        gas == gas_amount(teragas),
{
    near_gas::NearGas::from_tgas(teragas).as_gas()
}

/// The deposit, in yocto, of a number of whole tokens; `None` exactly when
/// the amount does not fit in `u128`.
pub fn deposit_of_tokens(tokens: u128) -> (deposit: Option<u128>)
    ensures
        yocto_amount(tokens) <= u128::MAX ==> deposit == Some(yocto_amount(tokens) as u128),
        yocto_amount(tokens) > u128::MAX ==> deposit.is_none(),
{
    if tokens <= MAX_WHOLE_TOKENS {
        Some(yocto_of_tokens(tokens))
    } else {
        None
    }
}

/// The allowance, in gas units, of a number of teragas; `None` exactly when
/// the amount does not fit in `u64`.
pub fn allowance_of_teragas(teragas: u64) -> (gas: Option<u64>)
    ensures
        gas_amount(teragas) <= u64::MAX ==> gas == Some(gas_amount(teragas) as u64),
        gas_amount(teragas) > u64::MAX ==> gas.is_none(),
{
    if teragas <= MAX_WHOLE_TERAGAS {
        Some(gas_of_teragas(teragas))
    } else {
        None
    }
}

/// The standard deposit: three whole tokens, in yocto.
pub fn standard_deposit() -> (deposit: u128)
    ensures
        deposit == 3_000_000_000_000_000_000_000_000u128,
{
    yocto_of_tokens(STANDARD_DEPOSIT_TOKENS)
}

/// The standard gas allowance: three hundred teragas, in gas units.
pub fn standard_gas() -> (gas: u64)
    ensures
        gas == 300_000_000_000_000u64,
{
    gas_of_teragas(STANDARD_GAS_TERAGAS)
}

} // verus!
