//! What the library asks of the ledger that holds the value.
//!
//! The library moves no value itself. Each operation that succeeds names the
//! movement that belongs to it; the host carries it out, and lets the change
//! of the record stand only if the movement succeeded.

use vstd::prelude::*;
use crate::identity::Identity;

verus! {

/// One movement of value between two accounts of the ledger.
#[derive(Clone, Copy, Debug, PartialEq, Eq)]
pub struct Transfer {
    /// The account that pays.
    pub from: Identity,
    /// The account that receives.
    pub to: Identity,
    /// How much moves.
    pub lamports: u64,
}

} // verus!
