//! The calls into `cosmwasm_std` and `cw20` that the steps make, each with the
//! contract that Verus believes of it.

use cosmwasm_std::{to_binary, StdError, Uint128};
use cw20::Cw20ExecuteMsg;
use vstd::prelude::*;

use crate::error::StdFailure;

verus! {

/// The character of a decimal digit.
pub open spec fn digit_char(d: nat) -> char {
    ((d + 48) as u32) as char
}

/// The decimal text of a number, most significant digit first, no leading zeros.
pub open spec fn decimal(n: nat) -> Seq<char>
    decreases n,
{
    if n < 10 {
        seq![digit_char(n)]
    } else {
        decimal(n / 10).push(digit_char(n % 10))
    }
}

/// The JSON bytes that `cosmwasm_std::to_binary` makes of
/// `cw20::Cw20ExecuteMsg::TransferFrom { owner, recipient, amount }`.
pub uninterp spec fn cw20_transfer_from_json(owner: Seq<char>, recipient: Seq<char>, amount: u128) -> Seq<u8>;

/// The JSON bytes that `cosmwasm_std::to_binary` makes of
/// `cw20::Cw20ExecuteMsg::Transfer { recipient, amount }`.
pub uninterp spec fn cw20_transfer_json(recipient: Seq<char>, amount: u128) -> Seq<u8>;

/// Calls `cosmwasm_std::to_binary` on `cw20::Cw20ExecuteMsg::TransferFrom`.
/// Claimed: it succeeds (the JSON serialiser fails on no string, struct
/// variant or `Uint128`), with the bytes named by `cw20_transfer_from_json`
/// for these arguments (serialisation depends on nothing else).
#[verifier::external_body]
pub(crate) fn cw20_transfer_from_binary(owner: &String, recipient: &String, amount: u128) -> (res: Result<Vec<u8>, StdFailure>)
    ensures
        res is Ok,
        res->Ok_0@ == cw20_transfer_from_json(owner@, recipient@, amount),
{
    let msg = Cw20ExecuteMsg::TransferFrom { owner: owner.clone(), recipient: recipient.clone(), amount: Uint128::new(amount) };
    match to_binary(&msg) {
        Ok(bin) => Ok(bin.to_vec()),
        Err(StdError::SerializeErr { source_type, msg, .. }) => Err(StdFailure::SerializeErr { source_type, msg }),
        Err(other) => Err(StdFailure::GenericErr { msg: other.to_string() }),
    }
}

/// Calls `cosmwasm_std::to_binary` on `cw20::Cw20ExecuteMsg::Transfer`.
/// Claimed: it succeeds (as above), with the bytes named by
/// `cw20_transfer_json` for these arguments.
#[verifier::external_body]
pub(crate) fn cw20_transfer_binary(recipient: &String, amount: u128) -> (res: Result<Vec<u8>, StdFailure>)
    ensures
        res is Ok,
        res->Ok_0@ == cw20_transfer_json(recipient@, amount),
{
    let msg = Cw20ExecuteMsg::Transfer { recipient: recipient.clone(), amount: Uint128::new(amount) };
    match to_binary(&msg) {
        Ok(bin) => Ok(bin.to_vec()),
        Err(StdError::SerializeErr { source_type, msg, .. }) => Err(StdFailure::SerializeErr { source_type, msg }),
        Err(other) => Err(StdFailure::GenericErr { msg: other.to_string() }),
    }
}

/// Calls `cosmwasm_std::Uint128::checked_mul`, which fails exactly when the
/// product does not fit in 128 bits.
#[verifier::external_body]
pub(crate) fn uint128_checked_mul(a: u128, b: u128) -> (res: Option<u128>)
    ensures
        res == (if a * b <= u128::MAX { Some((a * b) as u128) } else { None::<u128> }),
{
    match Uint128::new(a).checked_mul(Uint128::new(b)) {
        Ok(v) => Some(v.u128()),
        Err(_) => None,
    }
}

/// Calls `cosmwasm_std::Uint128::checked_sub`, which fails exactly when the
/// difference would be negative.
#[verifier::external_body]
pub(crate) fn uint128_checked_sub(a: u128, b: u128) -> (res: Option<u128>)
    ensures
        res == (if b <= a { Some((a - b) as u128) } else { None::<u128> }),
{
    match Uint128::new(a).checked_sub(Uint128::new(b)) {
        Ok(v) => Some(v.u128()),
        Err(_) => None,
    }
}

/// Calls `cosmwasm_std::Uint128::multiply_ratio`: the product divided by the
/// denominator, rounded down. It panics on a zero denominator and on a
/// quotient above 128 bits, which `requires` leaves out.
#[verifier::external_body]
pub(crate) fn uint128_multiply_ratio(a: u128, numerator: u64, denominator: u64) -> (res: u128)
    requires
        denominator > 0,
        a * numerator / (denominator as int) <= u128::MAX,
    ensures
        res == a * numerator / (denominator as int),
{
    Uint128::new(a).multiply_ratio(numerator, denominator).u128()
}

/// Calls `String::from(cosmwasm_std::Uint128)`, which writes the amount in decimal.
#[verifier::external_body]
pub(crate) fn uint128_text(n: u128) -> (s: String)
    ensures
        s@ == decimal(n as nat),
{
    String::from(Uint128::new(n))
}

/// Calls std's `ToString` on a `u128`, which writes it in decimal.
#[verifier::external_body]
pub(crate) fn u128_text(n: u128) -> (s: String)
    ensures
        s@ == decimal(n as nat),
{
    n.to_string()
}

} // verus!
