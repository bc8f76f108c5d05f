//! Custody of an auction's asset and escrowed funds.
//!
//! Value moves only through transfers that the ledger executes. The custodian
//! is the one party that words transfers into and out of an auction's custody
//! account; the host hands them to the ledger and reports back what it said.

use vstd::prelude::*;
use crate::key::AccountKey;

verus! {

/// What a transfer moves.
#[derive(Clone, Copy, Debug, PartialEq, Eq, Structural)]
pub enum Holding {
    /// Units of the auctioned asset.
    Asset,
    /// Bid funds.
    Funds,
}

/// One request to the ledger: move `amount` of `holding` from `from` to `to`,
/// signed for by `authority`. The ledger executes it wholly or not at all.
#[derive(Clone, Copy, Debug, PartialEq, Eq)]
pub struct Transfer {
    pub holding: Holding,
    pub from: AccountKey,
    pub to: AccountKey,
    pub authority: AccountKey,
    pub amount: u64,
}

/// What the ledger said of a batch of transfers executed as one unit.
#[derive(Clone, Copy, Debug, PartialEq, Eq, Structural)]
pub enum LedgerReply {
    /// Every transfer of the batch took effect.
    Completed,
    /// The ledger rejected a transfer, and none of the batch took effect.
    Rejected,
}

/// The capability to move value into and out of one custody account: the
/// account itself and the authority that signs for what leaves it.
#[derive(Clone, Copy, Debug, PartialEq, Eq)]
pub struct EscrowCustodian {
    pub vault: AccountKey,
    pub authority: AccountKey,
}

impl EscrowCustodian {
    /// The transfer that brings `amount` of `holding` from `source` into custody.
    /// The source signs for it.
    pub open spec fn deposit_leg(self, holding: Holding, source: AccountKey, amount: u64) -> Transfer {
        Transfer { holding, from: source, to: self.vault, authority: source, amount }
    }

    /// The transfer that hands `amount` of `holding` out of custody to `destination`.
    /// The custodian's authority signs for it.
    pub open spec fn release_leg(self, holding: Holding, destination: AccountKey, amount: u64) -> Transfer {
        Transfer { holding, from: self.vault, to: destination, authority: self.authority, amount }
    }

    /// A custodian over `vault`, acting under `authority`.
    pub fn new(vault: AccountKey, authority: AccountKey) -> (r: EscrowCustodian)
        ensures
            r.vault == vault,
            r.authority == authority,
    {
        EscrowCustodian { vault, authority }
    }

    /// Words the transfer of `amount` of `holding` from `source` into custody.
    pub fn deposit(&self, holding: Holding, source: AccountKey, amount: u64) -> (r: Transfer)
        ensures
            r == self.deposit_leg(holding, source, amount),
    {
        Transfer { holding, from: source, to: self.vault, authority: source, amount }
    }

    /// Words the transfer of `amount` of `holding` out of custody to `destination`.
    pub fn release(&self, holding: Holding, destination: AccountKey, amount: u64) -> (r: Transfer)
        ensures
            r == self.release_leg(holding, destination, amount),
    {
        Transfer { holding, from: self.vault, to: destination, authority: self.authority, amount }
    }
}

/// By how much one executed transfer changes what `account` holds of `holding`.
pub open spec fn leg_effect(leg: Transfer, holding: Holding, account: AccountKey) -> int {
    if leg.holding == holding {
        (if leg.to == account { leg.amount as int } else { 0 })
        - (if leg.from == account { leg.amount as int } else { 0 })
    } else {
        0
    }
}

/// What `account` holds of `holding` once the ledger has executed `legs` in
/// order, when it held `balance` before.
pub open spec fn held_after(balance: int, legs: Seq<Transfer>, holding: Holding, account: AccountKey) -> int
    decreases legs.len(),
{
    if legs.len() == 0 {
        balance
    } else {
        held_after(balance, legs.drop_last(), holding, account)
            + leg_effect(legs.last(), holding, account)
    }
}

/// Whether `account`, holding `balance` of `holding`, can pay every leg of
/// `legs` that draws on it at the moment the leg is executed.
pub open spec fn covers(balance: int, legs: Seq<Transfer>, holding: Holding, account: AccountKey) -> bool
    decreases legs.len(),
{
    if legs.len() == 0 {
        true
    } else {
        let before = held_after(balance, legs.drop_last(), holding, account);
        &&& covers(balance, legs.drop_last(), holding, account)
        &&& (legs.last().holding == holding && legs.last().from == account
            ==> legs.last().amount <= before)
    }
}

} // verus!
