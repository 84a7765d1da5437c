//! Fixed-point arithmetic on 128-bit amounts.
//!
//! Amounts are whole numbers of the smallest unit of a denomination. Weights,
//! rates and reserve balances are fixed-point values with eighteen fractional
//! digits. The products and quotients themselves are computed by cosmwasm_std.
use vstd::prelude::*;
use crate::error::{ArithmeticFault, ContractError};

verus! {

/// Number of atomic units in one whole of a fixed-point value.
pub const DECIMAL_FRACTIONAL: u128 = 1_000_000_000_000_000_000;

/// A fixed-point value with eighteen fractional digits: `atomics / 10^18`.
#[derive(Clone, Copy, Debug, PartialEq, Eq, Structural)]
pub struct Decimal18 {
    pub atomics: u128,
}

/// `StdError` of cosmwasm_std, the error of its checked subtraction. Nothing
/// is claimed of what a value of it holds.
#[verifier::external_type_specification]
#[verifier::external_body]
pub struct ExStdError(cosmwasm_std::StdError);

/// `a * nom / denom`, rounded down.
pub open spec fn ratio_floor(a: int, nom: int, denom: int) -> int {
    a * nom / denom
}

/// The amount times the fixed-point value, rounded down to a whole amount.
pub open spec fn scaled_floor(a: int, atomics: int) -> int {
    a * atomics / (DECIMAL_FRACTIONAL as int)
}

/// The character that stands for a decimal digit.
pub open spec fn digit_char(d: nat) -> char {
    seq!['0', '1', '2', '3', '4', '5', '6', '7', '8', '9'][d as int]
}

/// The decimal numeral of a number, without sign and without leading zeros.
pub open spec fn decimal_text(n: nat) -> Seq<char>
    decreases n,
{
    if n < 10 {
        seq![digit_char(n)]
    } else {
        decimal_text(n / 10).push(digit_char(n % 10))
    }
}

/// `Uint128::multiply_ratio` of cosmwasm_std: the product of the amount and the
/// nominator, divided by the denominator and rounded down. The product is formed
/// in 128 bits and a zero denominator is a panic there; both are excluded here.
#[verifier::external_body]
fn uint128_multiply_ratio(a: u128, nom: u128, denom: u128) -> (r: u128)
    requires
        denom != 0,
        a * nom <= u128::MAX,
    ensures
        r == ratio_floor(a as int, nom as int, denom as int),
{
    cosmwasm_std::Uint128(a).multiply_ratio(nom, denom).u128()
}

/// `Uint128 * Decimal` of cosmwasm_std: zero where either factor is zero,
/// otherwise the amount times the atomics, divided by 10^18 and rounded down,
/// with the product formed in 128 bits. The factor reaches cosmwasm_std's
/// `Decimal` through cosmwasm_bignumber's `Decimal256`, whose conversion keeps
/// every value below 2^128 atomics as it is.
#[verifier::external_body]
fn uint128_mul_decimal(a: u128, d: Decimal18) -> (r: u128)
    requires
        a * d.atomics <= u128::MAX,
    ensures
        r == scaled_floor(a as int, d.atomics as int),
{
    let wide = cosmwasm_bignumber::Decimal256(cosmwasm_bignumber::Uint256::from(d.atomics).0);
    let factor: cosmwasm_std::Decimal = wide.into();
    (cosmwasm_std::Uint128(a) * factor).u128()
}

/// `Uint128 - Uint128` of cosmwasm_std: the difference where the subtrahend is
/// not the larger, an error otherwise.
#[verifier::external_body]
fn uint128_sub(a: u128, b: u128) -> (r: Result<u128, cosmwasm_std::StdError>)
    ensures
        r is Ok <==> b <= a,
        r is Ok ==> r->Ok_0 == a - b,
{
    match cosmwasm_std::Uint128(a) - cosmwasm_std::Uint128(b) {
        Ok(v) => Ok(v.u128()),
        Err(e) => Err(e),
    }
}

/// `to_string` of cosmwasm_std's `Uint128`, which writes the number as std
/// writes a `u128`: in decimal digits, without leading zeros.
#[verifier::external_body]
pub(crate) fn uint128_to_string(n: u128) -> (r: String)
    ensures
        r@ == decimal_text(n as nat),
{
    cosmwasm_std::Uint128(n).to_string()
}

/// `a * nom / denom` rounded down, or `None` where the denominator is zero or
/// the product does not fit into 128 bits.
pub fn multiply_ratio(a: u128, nom: u128, denom: u128) -> (r: Option<u128>)
    ensures
        r is Some <==> denom != 0 && a * nom <= u128::MAX,
        r is Some ==> r->Some_0 == ratio_floor(a as int, nom as int, denom as int),
{
    if denom == 0 {
        return None;
    }
    match a.checked_mul(nom) {
        Some(_) => Some(uint128_multiply_ratio(a, nom, denom)),
        None => None,
    }
}

/// The amount times a fixed-point value, rounded down, or `None` where the
/// product of the amount and the atomics does not fit into 128 bits.
pub fn mul_decimal(a: u128, d: Decimal18) -> (r: Option<u128>)
    ensures
        r is Some <==> a * d.atomics <= u128::MAX,
        r is Some ==> r->Some_0 == scaled_floor(a as int, d.atomics as int),
{
    match a.checked_mul(d.atomics) {
        Some(_) => Some(uint128_mul_decimal(a, d)),
        None => None,
    }
}

/// The amount divided by a fixed-point value, rounded down, or `None` where the
/// divisor is zero or the amount times 10^18 does not fit into 128 bits.
pub fn decimal_division(a: u128, b: Decimal18) -> (r: Option<u128>)
    ensures
        r is Some <==> b.atomics != 0 && a * DECIMAL_FRACTIONAL <= u128::MAX,
        r is Some ==> r->Some_0 == ratio_floor(
            a as int,
            DECIMAL_FRACTIONAL as int,
            b.atomics as int,
        ),
{
    multiply_ratio(a, DECIMAL_FRACTIONAL, b.atomics)
}

/// `a - b`, or the underflow failure where `b` is the larger.
pub fn checked_sub(a: u128, b: u128) -> (r: Result<u128, ContractError>)
    ensures
        b <= a ==> r == Ok::<u128, ContractError>((a - b) as u128),
        b > a ==> r == Err::<u128, ContractError>(
            ContractError::ArithmeticFailure(ArithmeticFault::Underflow),
        ),
{
    match uint128_sub(a, b) {
        Ok(v) => Ok(v),
        Err(_) => Err(ContractError::ArithmeticFailure(ArithmeticFault::Underflow)),
    }
}

impl Decimal18 {
    /// The value zero.
    pub fn zero() -> (r: Self)
        ensures
            r.atomics == 0,
    {
        Decimal18 { atomics: 0 }
    }

    /// Whether the value is zero.
    pub fn is_zero(&self) -> (r: bool)
        ensures
            r == (self.atomics == 0),
    {
        self.atomics == 0
    }

    /// The fixed-point value of a whole number, or `None` where it has no room.
    pub fn from_units(units: u128) -> (r: Option<Self>)
        ensures
            r is Some <==> units * DECIMAL_FRACTIONAL <= u128::MAX,
            r is Some ==> r->Some_0.atomics == units * DECIMAL_FRACTIONAL,
    {
        match units.checked_mul(DECIMAL_FRACTIONAL) {
            Some(atomics) => Some(Decimal18 { atomics }),
            None => None,
        }
    }

    /// The whole part of the value.
    pub fn floor_units(&self) -> (r: u128)
        ensures
            r == self.atomics / DECIMAL_FRACTIONAL,
    {
        self.atomics / DECIMAL_FRACTIONAL
    }

    /// The sum of two values, or `None` where it has no room.
    pub fn checked_add(&self, other: &Decimal18) -> (r: Option<Decimal18>)
        ensures
            r is Some <==> self.atomics + other.atomics <= u128::MAX,
            r is Some ==> r->Some_0.atomics == self.atomics + other.atomics,
    {
        match self.atomics.checked_add(other.atomics) {
            Some(atomics) => Some(Decimal18 { atomics }),
            None => None,
        }
    }
}

} // verus!
