//! Validators applied before a command mutates the ledger.
//!
//! Each validator states exactly on which inputs it passes and which
//! error it reports otherwise. Facts that only the host can observe — the
//! asset registry's answer about an owner, an on-ledger balance — arrive
//! here as plain values.

use vstd::prelude::*;

use crate::error::ContractError;
use crate::state::{offers_unique, spec_has_offer, spec_offer_index, Ledger};

verus! {

/// One denominated amount of fungible tokens.
#[derive(Debug, PartialEq, Eq)]
pub struct Coin {
    pub denom: String,
    pub amount: u128,
}

/// Passes when no stored offer carries the id yet; a caller can recover
/// from the failure by choosing a new id.
pub fn validate_offer_id(ledger: &Ledger, id: u64) -> (r: Result<bool, ContractError>)
    requires
        offers_unique(ledger.offers@),
    ensures
        r is Ok <==> !spec_has_offer(ledger.offers@, id),
        r matches Err(e) ==> e == (ContractError::DuplicateOffer { id }),
{
    match ledger.find_offer(id) {
        None => Ok(true),
        Some(_) => Err(ContractError::DuplicateOffer { id }),
    }
}

/// Passes when the asset registry reported an owner and it is the party
/// claimed; a failed registry query (`None`) fails like a mismatch.
pub fn validate_nft(
    token_id: String,
    expected_owner: &String,
    reported_owner: &Option<String>,
) -> (r: Result<bool, ContractError>)
    ensures
        r is Ok <==> (reported_owner matches Some(o) && o@ == expected_owner@),
        r matches Err(e) ==> e == (ContractError::InvalidAsset { token_id }),
{
    match reported_owner {
        Some(o) => {
            if *o == *expected_owner {
                Ok(true)
            } else {
                Err(ContractError::InvalidAsset { token_id })
            }
        },
        None => Err(ContractError::InvalidAsset { token_id }),
    }
}

/// Locates the offer a transition refers to and checks that the caller
/// is its designated offeree; only the offeree may accept or decline.
pub fn validate_offeree(ledger: &Ledger, offeree: &String, id: u64) -> (r: Result<
    usize,
    ContractError,
>)
    requires
        offers_unique(ledger.offers@),
    ensures
        match r {
            Ok(i) => {
                &&& spec_has_offer(ledger.offers@, id)
                &&& i < ledger.offers@.len()
                &&& i == spec_offer_index(ledger.offers@, id)
                &&& ledger.offers@[i as int].id == id
                &&& ledger.offers@[i as int].offeree@ == offeree@
            },
            Err(e) => {
                if !spec_has_offer(ledger.offers@, id) {
                    e == (ContractError::NotFound { id })
                } else {
                    {
                        let o = ledger.offers@[spec_offer_index(ledger.offers@, id)];
                        o.offeree@ != offeree@ && e == (ContractError::Unauthorized {
                            offeree: o.offeree,
                        })
                    }
                }
            },
        },
        r is Ok <==> spec_has_offer(ledger.offers@, id)
            && ledger.offers@[spec_offer_index(ledger.offers@, id)].offeree@ == offeree@,
{
    match ledger.find_offer(id) {
        None => Err(ContractError::NotFound { id }),
        Some(i) => {
            if ledger.offers[i].offeree == *offeree {
                Ok(i)
            } else {
                Err(ContractError::Unauthorized { offeree: ledger.offers[i].offeree.clone() })
            }
        },
    }
}

/// Passes when a party's reported balance covers the wagered amount.
pub fn validate_balance(address: &String, balance: u128, amount: u128) -> (r: Result<
    bool,
    ContractError,
>)
    ensures
        r is Ok <==> balance >= amount,
        r matches Err(e) ==> e == (ContractError::InsufficientFunds { address: *address }),
{
    if balance < amount {
        Err(ContractError::InsufficientFunds { address: address.clone() })
    } else {
        Ok(true)
    }
}

/// Passes when exactly one coin of a non-zero amount was sent, and hands
/// that coin back; the two failure causes are reported apart.
pub fn validate_sent_funds(funds: Vec<Coin>) -> (r: Result<Coin, ContractError>)
    ensures
        r is Ok <==> funds@.len() == 1 && funds@[0].amount != 0,
        r matches Ok(c) ==> c.denom == funds@[0].denom && c.amount == funds@[0].amount,
        funds@.len() != 1 ==> (r matches Err(e) && e == (ContractError::MultipleCoins {
            count: funds@.len() as usize,
        })),
        funds@.len() == 1 && funds@[0].amount == 0 ==> (r matches Err(e) && e
            == (ContractError::ZeroAmount { denom: funds@[0].denom })),
{
    if funds.len() != 1 {
        return Err(ContractError::MultipleCoins { count: funds.len() });
    }
    let fund = &funds[0];
    if fund.amount == 0 {
        return Err(ContractError::ZeroAmount { denom: fund.denom.clone() });
    }
    Ok(Coin { denom: fund.denom.clone(), amount: fund.amount })
}

} // verus!
