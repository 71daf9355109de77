//! Notices the core hands to a logging collaborator: one distinguishable
//! message per condition. The format is not contractual; the variant and the
//! balance it carries are.

use vstd::prelude::*;

verus! {

/// One frame event worth reporting.
#[derive(Clone, Copy, Debug, PartialEq, Eq, Structural)]
pub enum Notice {
    /// A pig was bought: the balance after the debit, in cents.
    Spawned { new_balance_cents: i64 },
    /// A spawn trigger fired with too little balance: the unchanged balance.
    InsufficientFunds { balance_cents: i64 },
    /// A pig expired and was sold: the balance after the credit, in cents.
    PigSold { new_balance_cents: i64 },
    /// A spawn trigger fired with no player present.
    NoPlayer,
    /// A spawn trigger fired with more than one player present.
    AmbiguousPlayer,
}

} // verus!
