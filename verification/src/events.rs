//! The notifications that state changes give rise to.

use vstd::prelude::*;
use crate::address::Address;

verus! {

/// A notification for outside observers. The contract never reads one back:
/// each operation that changes the state returns the notification to emit.
#[derive(Clone, Copy, Debug, PartialEq, Eq)]
pub enum Event {
    /// An argument was stored. Observers find it by the identifier, the
    /// debate and the type; the quality score is its payload.
    ArgumentStored { argument_id: u64, debate_id: u64, argument_type: u8, quality_score: u32 },
    /// A subscription was created or renewed. Observers find it by the user
    /// and the tier; the expiry is its payload.
    SubscriptionCreated { user: Address, tier: u8, expires_at: u64 },
    /// A subscription was cancelled.
    SubscriptionCancelled { user: Address },
}

} // verus!
