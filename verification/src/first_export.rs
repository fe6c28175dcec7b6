//! The shared data contract: what a source releases to its successor.

use vstd::prelude::*;

verus! {

/// A single balance: a denomination and an amount of it.
#[derive(Clone, Debug, PartialEq)]
pub struct Coin {
    pub denom: String,
    pub amount: u128,
}

/// One account as it appears in the exported snapshot.
#[derive(Clone, Debug, PartialEq)]
pub struct Account {
    pub addr: String,
    pub funds: Vec<Coin>,
}

/// The snapshot a source contract releases upon a successful export query.
/// Pure data: produced by the source, persisted by the target.
#[derive(Clone, Debug, PartialEq)]
pub struct ExportData {
    pub name: String,
    pub decimals: u8,
    pub accounts: Vec<Account>,
}

} // verus!
