use vstd::prelude::*;

pub mod event;
pub mod laws;
pub mod ledger;

pub use event::{Event, EventView};
pub use ledger::{Contract, LedgerView};

verus! {

/// Why an operation on the ledger was refused.
#[derive(Debug, Clone, Copy, PartialEq, Eq, Structural)]
pub enum LedgerError {
    /// The event id does not name an existing event.
    InvalidReference,
}

} // verus!
