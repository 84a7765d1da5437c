//! What the host tells the vault about a call: who calls, with which funds,
//! and what the chain answered to the queries that the call depends on.
use vstd::prelude::*;
use crate::allocation::{Basket, Rates};

verus! {

/// An amount of a native denomination.
#[derive(Clone, Debug, PartialEq, Eq)]
pub struct Coin {
    pub denom: String,
    pub amount: u128,
}

pub struct CoinView {
    pub denom: Seq<char>,
    pub amount: u128,
}

impl View for Coin {
    type V = CoinView;

    open spec fn view(&self) -> CoinView {
        CoinView { denom: self.denom@, amount: self.amount }
    }
}

/// The caller, the vault's own address and the funds attached to the call.
#[derive(Clone, Debug, PartialEq, Eq)]
pub struct Env {
    pub sender: String,
    pub contract_address: String,
    pub sent_funds: Vec<Coin>,
}

pub struct EnvView {
    pub sender: Seq<char>,
    pub contract_address: Seq<char>,
    pub sent_funds: Seq<CoinView>,
}

impl View for Env {
    type V = EnvView;

    open spec fn view(&self) -> EnvView {
        EnvView {
            sender: self.sender@,
            contract_address: self.contract_address@,
            sent_funds: self.sent_funds@.map_values(|c: Coin| c@),
        }
    }
}

/// The chain's answers at the time of a call. Rates are base units per unit
/// of the reserve asset; a rate that could not be had is `None`.
#[derive(Clone, Debug, PartialEq, Eq)]
pub struct ChainSnapshot {
    /// Trading pair of the base denomination and the first token asset.
    pub pair_anc: String,
    /// Trading pair of the base denomination and the second token asset.
    pub pair_mir: String,
    /// What is left of the deposit once the transfer tax is taken off.
    pub deposit_after_tax: u128,
    /// The price of each reserve asset.
    pub rates: Rates,
    /// The vault's own balance of the claim token.
    pub claim_balance: u128,
    /// The vault's holding of each reserve asset.
    pub holdings: Basket,
    /// The vault's balance of the base denomination.
    pub stable_balance: u128,
}

pub struct ChainSnapshotView {
    pub pair_anc: Seq<char>,
    pub pair_mir: Seq<char>,
    pub deposit_after_tax: u128,
    pub rates: Rates,
    pub claim_balance: u128,
    pub holdings: Basket,
    pub stable_balance: u128,
}

impl View for ChainSnapshot {
    type V = ChainSnapshotView;

    open spec fn view(&self) -> ChainSnapshotView {
        ChainSnapshotView {
            pair_anc: self.pair_anc@,
            pair_mir: self.pair_mir@,
            deposit_after_tax: self.deposit_after_tax,
            rates: self.rates,
            claim_balance: self.claim_balance,
            holdings: self.holdings,
            stable_balance: self.stable_balance,
        }
    }
}

/// The amount of the first coin of the wanted denomination among the funds
/// from position `from` on, zero where there is none.
pub open spec fn deposit_from(funds: Seq<CoinView>, denom: Seq<char>, from: int) -> u128
    decreases funds.len() - from,
{
    if from < 0 || from >= funds.len() {
        0
    } else if funds[from].denom == denom {
        funds[from].amount
    } else {
        deposit_from(funds, denom, from + 1)
    }
}

/// The deposit that a call carries: the amount of the first attached coin of
/// the base denomination, zero where none is attached.
pub open spec fn deposit_of(funds: Seq<CoinView>, denom: Seq<char>) -> u128 {
    deposit_from(funds, denom, 0)
}

/// The deposit that a call carries in the given denomination.
pub fn deposit_amount(env: &Env, denom: &String) -> (r: u128)
    ensures
        r == deposit_of(env@.sent_funds, denom@),
{
    let mut i: usize = 0;
    while i < env.sent_funds.len()
        invariant
            i <= env.sent_funds.len(),
            deposit_of(env@.sent_funds, denom@) == deposit_from(env@.sent_funds, denom@, i as int),
        decreases env.sent_funds.len() - i,
    {
        if env.sent_funds[i].denom == *denom {
            return env.sent_funds[i].amount;
        }
        i += 1;
    }
    0
}

} // verus!
