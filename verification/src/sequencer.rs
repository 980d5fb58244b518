//! How a chain of calls resumes in a step of the vault.
//!
//! A step is entered by the vault's own call, after exactly one earlier call
//! has returned. It takes that call's result, or fails: for a caller other
//! than the vault itself, for another number of results than one, for a call
//! that failed, or for a result of another shape than the step expects.

use vstd::prelude::*;
use crate::codec::{
    decode_amount, decode_balances, decode_text, json_amount, json_balances, json_text,
    shares_of_text,
};
use crate::decimal::parse_amount;
use crate::errors::VaultError;
use crate::holdings::{as_map, distinct, table_of, Holding};

verus! {

/// Who entered the vault: the account that made the call, and the account of
/// the vault itself.
#[derive(Clone, PartialEq, Eq, Debug)]
pub struct CallContext {
    /// The account that made the call.
    pub predecessor: String,
    /// The vault's own account.
    pub current: String,
}

/// How an earlier call ended.
#[derive(Clone, PartialEq, Eq, Debug)]
pub enum PromiseOutcome {
    /// It returned these bytes.
    Successful(Vec<u8>),
    /// It failed.
    Failed,
}

/// The bytes that a resumed step is handed, or why it may not go on.
pub open spec fn resumed(ctx: CallContext, results: Seq<PromiseOutcome>) -> Result<
    Seq<u8>,
    VaultError,
> {
    if ctx.predecessor@ != ctx.current@ {
        Err(VaultError::NotAllowed)
    } else if results.len() != 1 {
        Err(VaultError::TooManyResults)
    } else {
        match results[0] {
            PromiseOutcome::Successful(bytes) => Ok(bytes@),
            PromiseOutcome::Failed => Err(VaultError::RemoteCallFailed),
        }
    }
}

/// The number of shares that a resumed step is handed.
pub open spec fn resumed_shares(ctx: CallContext, results: Seq<PromiseOutcome>) -> Result<
    u128,
    VaultError,
> {
    match resumed(ctx, results) {
        Ok(bytes) => shares_of_text(json_text(bytes)),
        Err(e) => Err(e),
    }
}

/// The amount that a resumed step is handed.
pub open spec fn resumed_amount(ctx: CallContext, results: Seq<PromiseOutcome>) -> Result<
    u128,
    VaultError,
> {
    match resumed(ctx, results) {
        Ok(bytes) => match json_amount(bytes) {
            Some(n) => Ok(n),
            None => Err(VaultError::MalformedResult),
        },
        Err(e) => Err(e),
    }
}

/// The balances by token that a resumed step is handed.
pub open spec fn resumed_balances(ctx: CallContext, results: Seq<PromiseOutcome>) -> Result<
    Map<Seq<char>, nat>,
    VaultError,
> {
    match resumed(ctx, results) {
        Ok(bytes) => match json_balances(bytes) {
            Some(m) => Ok(m),
            None => Err(VaultError::MalformedResult),
        },
        Err(e) => Err(e),
    }
}

/// Whether the vault itself made the call.
pub fn is_self_call(ctx: &CallContext) -> (own: bool)
    ensures
        own == (ctx.predecessor@ == ctx.current@),
{
    ctx.predecessor == ctx.current
}

/// Takes the one result that a step resumes with.
pub fn resume<'a>(ctx: &CallContext, results: &'a Vec<PromiseOutcome>) -> (res: Result<
    &'a Vec<u8>,
    VaultError,
>)
    ensures
        match res {
            Ok(bytes) => resumed(*ctx, results@) == Ok::<Seq<u8>, VaultError>(bytes@),
            Err(e) => resumed(*ctx, results@) == Err::<Seq<u8>, VaultError>(e),
        },
{
    if !is_self_call(ctx) {
        return Err(VaultError::NotAllowed);
    }
    if results.len() != 1 {
        return Err(VaultError::TooManyResults);
    }
    match &results[0] {
        PromiseOutcome::Successful(bytes) => Ok(bytes),
        PromiseOutcome::Failed => Err(VaultError::RemoteCallFailed),
    }
}

/// Takes the number of shares that a step resumes with: the one result, read as
/// a JSON string that spells a number.
pub fn resume_with_shares(ctx: &CallContext, results: &Vec<PromiseOutcome>) -> (res: Result<
    u128,
    VaultError,
>)
    ensures
        res == resumed_shares(*ctx, results@),
{
    match resume(ctx, results) {
        Ok(bytes) => match decode_text(bytes) {
            Some(text) => match parse_amount(&text) {
                Some(n) => Ok(n),
                None => Err(VaultError::MalformedResult),
            },
            None => Err(VaultError::MalformedResult),
        },
        Err(e) => Err(e),
    }
}

/// Takes the amount that a step resumes with: the one result, read as a JSON
/// string that spells a number.
pub fn resume_with_amount(ctx: &CallContext, results: &Vec<PromiseOutcome>) -> (res: Result<
    u128,
    VaultError,
>)
    ensures
        res == resumed_amount(*ctx, results@),
{
    match resume(ctx, results) {
        Ok(bytes) => match decode_amount(bytes) {
            Some(n) => Ok(n),
            None => Err(VaultError::MalformedResult),
        },
        Err(e) => Err(e),
    }
}

/// Takes the balances that a step resumes with: the one result, read as a
/// JSON object from account names to amounts. They come as rows without
/// repeated names, in no stated order.
pub fn resume_with_balances(ctx: &CallContext, results: &Vec<PromiseOutcome>) -> (res: Result<
    Vec<Holding>,
    VaultError,
>)
    ensures
        match res {
            Ok(rows) => distinct(table_of(rows@)) && resumed_balances(*ctx, results@) == Ok::<
                Map<Seq<char>, nat>,
                VaultError,
            >(as_map(table_of(rows@))),
            Err(e) => resumed_balances(*ctx, results@) == Err::<Map<Seq<char>, nat>, VaultError>(e),
        },
{
    match resume(ctx, results) {
        Ok(bytes) => match decode_balances(bytes) {
            Some(rows) => Ok(rows),
            None => Err(VaultError::MalformedResult),
        },
        Err(e) => Err(e),
    }
}

} // verus!
