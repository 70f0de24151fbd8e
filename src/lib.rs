//! An escrow swap between a maker and a taker, over an in-memory ledger of
//! token holdings, and a small authority-guarded counter.

pub mod address;
pub mod counter;
pub mod escrow;
pub mod key;
pub mod lemmas;
pub mod ledger;
pub mod table;
