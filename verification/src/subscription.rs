//! Subscription records and the rules for buying one.

use vstd::prelude::*;
use crate::access::ensure_owner;
use crate::address::Address;
use crate::amount::Amount;
use crate::error::ContractError;

verus! {

/// How long a subscription lasts from the moment it is bought: thirty days,
/// in seconds.
pub const SECONDS_PER_30_DAYS: u64 = 2_592_000;

/// The highest tier. Tiers that can be bought are 1 up to this one.
pub const MAX_TIER: u8 = 3;

/// The subscription state of one subscriber.
#[derive(Clone, Copy, Debug, PartialEq, Eq, Structural)]
pub struct SubscriptionInfo {
    /// 0 for no subscription, otherwise the tier bought: 1, 2 or 3.
    pub tier: u8,
    /// Ledger time, in seconds, at which the subscription ends; 0 if there
    /// never was one.
    pub expires_at: u64,
    /// Arguments used in the current period. Kept for a later quota; no
    /// operation counts or checks it.
    pub arguments_used: u64,
}

impl SubscriptionInfo {
    /// The record of somebody who has no subscription.
    pub open spec fn spec_none() -> SubscriptionInfo {
        SubscriptionInfo { tier: 0, expires_at: 0, arguments_used: 0 }
    }

    /// The record that buying `tier` at time `now` creates.
    pub open spec fn spec_fresh(tier: u8, now: u64) -> SubscriptionInfo {
        SubscriptionInfo {
            tier,
            expires_at: (now + SECONDS_PER_30_DAYS) as u64,
            arguments_used: 0,
        }
    }

    /// Whether the subscription is still running at `current_timestamp`. It
    /// has ended once the time has reached `expires_at`.
    pub open spec fn spec_is_active(&self, current_timestamp: u64) -> bool {
        self.expires_at > current_timestamp
    }

    /// The record of somebody who has no subscription.
    pub fn none() -> (r: SubscriptionInfo)
        ensures
            r == SubscriptionInfo::spec_none(),
    {
        SubscriptionInfo { tier: 0, expires_at: 0, arguments_used: 0 }
    }

    /// Returns true if the subscription has not expired.
    #[verifier::when_used_as_spec(spec_is_active)]
    pub fn is_active(&self, current_timestamp: u64) -> (r: bool)
        ensures
            r == (self.expires_at > current_timestamp),
    {
        self.expires_at > current_timestamp
    }
}

/// Whether `tier` can be bought.
pub open spec fn valid_tier(tier: u8) -> bool {
    1 <= tier <= MAX_TIER
}

/// Accepts the tiers that can be bought and refuses every other.
pub fn check_tier(tier: u8) -> (r: Result<(), ContractError>)
    ensures
        valid_tier(tier) ==> r is Ok,
        !valid_tier(tier) ==> r == Err::<(), ContractError>(ContractError::InvalidTier),
{
    if tier >= 1 && tier <= MAX_TIER {
        Ok(())
    } else {
        Err(ContractError::InvalidTier)
    }
}

/// Why buying `tier` for `payment` is refused when the tier costs `price`,
/// or `None` if it is accepted. The tier is looked at first, then the price,
/// then the payment, which must be the price exactly.
pub open spec fn subscription_refusal(tier: u8, price: nat, payment: nat) -> Option<ContractError> {
    if !valid_tier(tier) {
        Some(ContractError::InvalidTier)
    } else if price == 0 {
        Some(ContractError::PricingNotSet)
    } else if payment != price {
        Some(ContractError::IncorrectPayment)
    } else {
        None
    }
}

/// Decides a purchase of `tier` made at time `now` with `payment`, where
/// `price` is what the tier costs (zero if no price was set). An accepted
/// purchase yields the record that replaces whatever the buyer had.
pub fn open_subscription(tier: u8, price: &Amount, payment: &Amount, now: u64) -> (r: Result<
    SubscriptionInfo,
    ContractError,
>)
    requires
        now + SECONDS_PER_30_DAYS <= u64::MAX,
    ensures
        match subscription_refusal(tier, price@, payment@) {
            Some(e) => r == Err::<SubscriptionInfo, ContractError>(e),
            None => r == Ok::<SubscriptionInfo, ContractError>(
                SubscriptionInfo::spec_fresh(tier, now),
            ),
        },
{
    match check_tier(tier) {
        Err(e) => {
            return Err(e);
        },
        Ok(_) => {},
    }
    if price.is_zero() {
        return Err(ContractError::PricingNotSet);
    }
    if *payment != *price {
        return Err(ContractError::IncorrectPayment);
    }
    Ok(SubscriptionInfo { tier, expires_at: now + SECONDS_PER_30_DAYS, arguments_used: 0 })
}

/// Why pricing `tier` is refused to `caller`, or `None` if it is accepted.
/// The caller is looked at first, then the tier. The price itself is never a
/// reason: any price is taken, zero too.
pub open spec fn pricing_refusal(caller: Address, owner: Address, tier: u8) -> Option<
    ContractError,
> {
    if caller != owner {
        Some(ContractError::NotOwner)
    } else if !valid_tier(tier) {
        Some(ContractError::InvalidTier)
    } else {
        None
    }
}

/// Decides whether `caller` may set the price of `tier`.
pub fn admit_pricing(caller: &Address, owner: &Address, tier: u8) -> (r: Result<(), ContractError>)
    ensures
        match pricing_refusal(*caller, *owner, tier) {
            Some(e) => r == Err::<(), ContractError>(e),
            None => r is Ok,
        },
{
    match ensure_owner(caller, owner) {
        Err(e) => {
            return Err(e);
        },
        Ok(_) => {},
    }
    check_tier(tier)
}

/// Decides a cancellation: there must be a record to delete, whether it has
/// expired or not.
pub fn check_cancellable(has_record: bool) -> (r: Result<(), ContractError>)
    ensures
        has_record ==> r is Ok,
        !has_record ==> r == Err::<(), ContractError>(ContractError::NoActiveSubscription),
{
    if has_record {
        Ok(())
    } else {
        Err(ContractError::NoActiveSubscription)
    }
}

/// What a query reports of a subscriber: the record as it is kept, or the
/// record of no subscription where none is kept. Expiry is not looked at.
pub fn reported_record(record: Option<SubscriptionInfo>) -> (r: SubscriptionInfo)
    ensures
        r == match record {
            Some(info) => info,
            None => SubscriptionInfo::spec_none(),
        },
{
    match record {
        Some(info) => info,
        None => SubscriptionInfo::none(),
    }
}

} // verus!
