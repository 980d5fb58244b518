//! What the results of remote calls say: JSON text, amounts and balances.
//!
//! The decoding itself is the work of `serde_json` as `near_sdk` hands it on.
//! Each result is given a name here; the functions of this crate that decide on
//! a decoded value state what they do for every value of it.

use vstd::prelude::*;
use std::collections::HashMap;
use near_sdk::json_types::U128;
use near_sdk::AccountId;
use crate::decimal::decimal_value;
use crate::errors::VaultError;
use crate::holdings::{as_map, distinct, find_row, lemma_first_row, table_of, Holding};

verus! {

/// The string that `bytes` hold as a JSON document, if they hold one.
pub uninterp spec fn json_text(bytes: Seq<u8>) -> Option<Seq<char>>;

/// The amount that `bytes` hold as a JSON string that spells a number, if they
/// hold one.
pub uninterp spec fn json_amount(bytes: Seq<u8>) -> Option<u128>;

/// The balances by account that `bytes` hold as a JSON object from account
/// names to amounts in decimal digits, if they hold one.
pub uninterp spec fn json_balances(bytes: Seq<u8>) -> Option<Map<Seq<char>, nat>>;

/// Calls `near_sdk::serde_json::from_slice::<String>`. The result is `None`
/// where that call fails, and otherwise the string it returns; that string is
/// what `json_text` names.
#[verifier::external_body]
pub(crate) fn decode_text(bytes: &Vec<u8>) -> (text: Option<String>)
    ensures
        match text {
            Some(t) => json_text(bytes@) == Some(t@),
            None => json_text(bytes@) is None,
        },
{
    match near_sdk::serde_json::from_slice::<String>(bytes) {
        Ok(text) => Some(text),
        Err(_) => None,
    }
}

/// Calls `near_sdk::serde_json::from_slice::<near_sdk::json_types::U128>`. The
/// result is `None` where that call fails, and otherwise the number it
/// returns; that number is what `json_amount` names.
#[verifier::external_body]
pub(crate) fn decode_amount(bytes: &Vec<u8>) -> (amount: Option<u128>)
    ensures
        amount == json_amount(bytes@),
{
    match near_sdk::serde_json::from_slice::<U128>(bytes) {
        Ok(amount) => Some(amount.0),
        Err(_) => None,
    }
}

/// Calls `near_sdk::serde_json::from_slice` for a `HashMap` from
/// `near_sdk::AccountId` to `near_sdk::json_types::U128`. The result is `None`
/// where that call fails. Otherwise it holds one row for each key of the map,
/// in no stated order, with the key's text and its amount: no name occurs
/// twice, and the rows read as a map are what `json_balances` names.
#[verifier::external_body]
pub(crate) fn decode_balances(bytes: &Vec<u8>) -> (balances: Option<Vec<Holding>>)
    ensures
        match balances {
            Some(rows) => distinct(table_of(rows@)) && json_balances(bytes@) == Some(
                as_map(table_of(rows@)),
            ),
            None => json_balances(bytes@) is None,
        },
{
    match near_sdk::serde_json::from_slice::<HashMap<AccountId, U128>>(bytes) {
        Ok(map) => Some(
            map.into_iter().map(|(id, amount)| Holding { id: id.to_string(), amount: amount.0 }).collect(),
        ),
        Err(_) => None,
    }
}

/// What the map `balances` holds for `token`, if it names the token at all.
pub open spec fn balance_in(balances: Map<Seq<char>, nat>, token: Seq<char>) -> Option<u128> {
    if balances.dom().contains(token) {
        Some(balances[token] as u128)
    } else {
        None
    }
}

/// What a decoded text says of a number of shares: the number it spells, or
/// that it is malformed.
pub open spec fn shares_of_text(text: Option<Seq<char>>) -> Result<u128, VaultError> {
    match text {
        Some(t) => match decimal_value(t) {
            Some(n) => Ok(n),
            None => Err(VaultError::MalformedResult),
        },
        None => Err(VaultError::MalformedResult),
    }
}

/// What `rows` hold for `token`, if they name the token at all. A token that
/// is named with nothing held is not a token that is not named.
pub fn balance_of(rows: &Vec<Holding>, token: &str) -> (amount: Option<u128>)
    ensures
        amount == balance_in(as_map(table_of(rows@)), token@),
{
    let name = token.to_owned();
    match find_row(rows, &name) {
        Some(i) => {
            proof {
                lemma_first_row(table_of(rows@), name@, i as int);
            }
            Some(rows[i].amount)
        },
        None => None,
    }
}

} // verus!
