use dialectical_payments::address::Address;
use dialectical_payments::amount::Amount;
use dialectical_payments::contract::DialecticalPayments;
use dialectical_payments::error::ContractError;
use dialectical_payments::events::Event;
use dialectical_payments::subscription::{
    admit_pricing, check_cancellable, check_tier, open_subscription, reported_record,
    SubscriptionInfo, MAX_TIER, SECONDS_PER_30_DAYS,
};

fn address(name: &str) -> Address {
    let mut bytes = [b'_'; 32];
    bytes[..name.len()].copy_from_slice(name.as_bytes());
    Address::from_bytes(bytes)
}

fn amount(value: u128) -> Amount {
    Amount::from_u128(value)
}

fn priced(owner: &Address, tier: u8, price: u128) -> DialecticalPayments {
    let mut contract = DialecticalPayments::init(*owner);
    contract.set_tier_pricing(owner, tier, amount(price)).unwrap();
    contract
}

#[test]
fn period_is_thirty_days_in_seconds() {
    assert_eq!(SECONDS_PER_30_DAYS, 30 * 24 * 60 * 60);
    assert_eq!(SECONDS_PER_30_DAYS, 2_592_000);
    assert_eq!(MAX_TIER, 3);
}

#[test]
fn exact_payment_is_accepted_for_every_tier() {
    let owner = address("owner");
    let user = address("user");
    for tier in 1u8..=3 {
        let price = 1_000 * u128::from(tier);
        let mut contract = priced(&owner, tier, price);
        let event = contract.subscribe(&user, 500, &amount(price), tier).unwrap();
        assert_eq!(
            event,
            Event::SubscriptionCreated { user, tier, expires_at: 500 + 2_592_000 }
        );
        assert_eq!(
            contract.check_subscription(&user),
            SubscriptionInfo { tier, expires_at: 2_592_500, arguments_used: 0 }
        );
    }
}

#[test]
fn any_other_payment_is_refused_and_changes_nothing() {
    let owner = address("owner");
    let user = address("user");
    for tier in 1u8..=3 {
        let mut contract = priced(&owner, tier, 1_000);
        for payment in [0u128, 1, 999, 1_001, 2_000, u128::MAX] {
            let result = contract.subscribe(&user, 0, &amount(payment), tier);
            assert_eq!(result, Err(ContractError::IncorrectPayment));
            assert_eq!(contract.check_subscription(&user), SubscriptionInfo::none());
        }
    }
}

#[test]
fn overpayment_is_not_tolerated() {
    let owner = address("owner");
    let user = address("user");
    let mut contract = priced(&owner, 2, 10_000_000_000_000_000);
    let result = contract.subscribe(&user, 0, &amount(10_000_000_000_000_001), 2);
    assert_eq!(result, Err(ContractError::IncorrectPayment));
}

#[test]
fn prices_beyond_sixty_four_bits_are_compared_exactly() {
    let owner = address("owner");
    let user = address("user");
    let price = 100_000_000_000_000_000_000u128;
    let mut contract = priced(&owner, 3, price);
    assert_eq!(
        contract.subscribe(&user, 0, &amount(price - 1), 3),
        Err(ContractError::IncorrectPayment)
    );
    assert!(contract.subscribe(&user, 0, &amount(price), 3).is_ok());
}

#[test]
fn tier_out_of_range_is_refused_first() {
    let owner = address("owner");
    let user = address("user");
    let mut contract = priced(&owner, 1, 1_000);
    for tier in [0u8, 4, 5, 255] {
        let result = contract.subscribe(&user, 0, &amount(1_000), tier);
        assert_eq!(result, Err(ContractError::InvalidTier));
        assert_eq!(result.unwrap_err().message(), "Invalid tier (1-3)");
    }
}

#[test]
fn unpriced_tier_is_refused_whatever_is_paid() {
    let owner = address("owner");
    let user = address("user");
    let mut contract = priced(&owner, 1, 1_000);
    for payment in [0u128, 1_000] {
        let result = contract.subscribe(&user, 0, &amount(payment), 2);
        assert_eq!(result, Err(ContractError::PricingNotSet));
        assert_eq!(result.unwrap_err().message(), "Tier pricing not set");
    }
    assert_eq!(contract.check_subscription(&user), SubscriptionInfo::none());
}

#[test]
fn price_of_zero_blocks_the_tier_until_corrected() {
    let owner = address("owner");
    let user = address("user");
    let mut contract = priced(&owner, 1, 1_000);
    contract.set_tier_pricing(&owner, 1, Amount::zero()).unwrap();
    assert!(contract.tier_pricing(1).is_zero());
    assert_eq!(
        contract.subscribe(&user, 0, &Amount::zero(), 1),
        Err(ContractError::PricingNotSet)
    );
    assert_eq!(
        contract.subscribe(&user, 0, &amount(1_000), 1),
        Err(ContractError::PricingNotSet)
    );
    contract.set_tier_pricing(&owner, 1, amount(7)).unwrap();
    assert!(contract.subscribe(&user, 0, &amount(7), 1).is_ok());
}

#[test]
fn renewal_counts_from_the_new_time() {
    let owner = address("owner");
    let user = address("user");
    let mut contract = priced(&owner, 1, 1_000);
    contract.subscribe(&user, 0, &amount(1_000), 1).unwrap();
    assert_eq!(contract.check_subscription(&user).expires_at, 2_592_000);
    contract.subscribe(&user, 100, &amount(1_000), 1).unwrap();
    let renewed = contract.check_subscription(&user);
    assert_eq!(renewed.expires_at, 100 + 2_592_000);
    assert_ne!(renewed.expires_at, 2_592_000 + 2_592_000);
    assert_eq!(renewed.arguments_used, 0);
}

#[test]
fn renewal_may_change_the_tier() {
    let owner = address("owner");
    let user = address("user");
    let mut contract = priced(&owner, 1, 1_000);
    contract.set_tier_pricing(&owner, 3, amount(9_000)).unwrap();
    contract.subscribe(&user, 10, &amount(1_000), 1).unwrap();
    contract.subscribe(&user, 20, &amount(9_000), 3).unwrap();
    assert_eq!(
        contract.check_subscription(&user),
        SubscriptionInfo { tier: 3, expires_at: 2_592_020, arguments_used: 0 }
    );
}

#[test]
fn refused_renewal_keeps_the_old_record() {
    let owner = address("owner");
    let user = address("user");
    let mut contract = priced(&owner, 1, 1_000);
    contract.subscribe(&user, 10, &amount(1_000), 1).unwrap();
    assert!(contract.subscribe(&user, 999, &amount(1), 1).is_err());
    assert_eq!(contract.check_subscription(&user).expires_at, 2_592_010);
}

#[test]
fn active_strictly_before_expiry() {
    let info = SubscriptionInfo { tier: 1, expires_at: 2_592_000, arguments_used: 0 };
    assert!(info.is_active(0));
    assert!(info.is_active(2_591_999));
    assert!(!info.is_active(2_592_000));
    assert!(!info.is_active(2_592_001));
    assert!(!info.is_active(u64::MAX));
}

#[test]
fn no_subscription_is_never_active() {
    let none = SubscriptionInfo::none();
    assert_eq!(none, SubscriptionInfo { tier: 0, expires_at: 0, arguments_used: 0 });
    assert!(!none.is_active(0));
    assert!(!none.is_active(1));
}

#[test]
fn cancel_without_record_fails() {
    let owner = address("owner");
    let user = address("user");
    let mut contract = priced(&owner, 1, 1_000);
    let result = contract.cancel_subscription(&user);
    assert_eq!(result, Err(ContractError::NoActiveSubscription));
    let error = result.unwrap_err();
    assert_eq!(error.message(), "No active subscription");
    assert_eq!(error.status(), 4);
}

#[test]
fn subscribe_then_cancel_gives_the_default() {
    let owner = address("owner");
    let user = address("user");
    let mut contract = priced(&owner, 2, 5);
    contract.subscribe(&user, 77, &amount(5), 2).unwrap();
    assert_eq!(
        contract.cancel_subscription(&user),
        Ok(Event::SubscriptionCancelled { user })
    );
    assert_eq!(
        contract.check_subscription(&user),
        SubscriptionInfo { tier: 0, expires_at: 0, arguments_used: 0 }
    );
    assert_eq!(
        contract.cancel_subscription(&user),
        Err(ContractError::NoActiveSubscription)
    );
}

#[test]
fn expired_record_stays_until_cancelled() {
    let owner = address("owner");
    let user = address("user");
    let mut contract = priced(&owner, 1, 1_000);
    contract.subscribe(&user, 0, &amount(1_000), 1).unwrap();
    let later = 40 * 24 * 60 * 60;
    let record = contract.check_subscription(&user);
    assert!(!record.is_active(later));
    assert_eq!(record.tier, 1);
    assert!(contract.cancel_subscription(&user).is_ok());
    assert_eq!(contract.check_subscription(&user), SubscriptionInfo::none());
}

#[test]
fn subscribers_do_not_touch_each_other() {
    let owner = address("owner");
    let alice = address("alice");
    let bob = address("bob");
    let carol = address("carol");
    let mut contract = priced(&owner, 1, 1_000);
    contract.set_tier_pricing(&owner, 2, amount(2_000)).unwrap();
    contract.subscribe(&alice, 1, &amount(1_000), 1).unwrap();
    contract.subscribe(&bob, 2, &amount(2_000), 2).unwrap();
    contract.subscribe(&carol, 3, &amount(1_000), 1).unwrap();
    contract.cancel_subscription(&alice).unwrap();
    assert_eq!(contract.check_subscription(&alice), SubscriptionInfo::none());
    assert_eq!(
        contract.check_subscription(&bob),
        SubscriptionInfo { tier: 2, expires_at: 2_592_002, arguments_used: 0 }
    );
    assert_eq!(
        contract.check_subscription(&carol),
        SubscriptionInfo { tier: 1, expires_at: 2_592_003, arguments_used: 0 }
    );
    contract.subscribe(&bob, 50, &amount(1_000), 1).unwrap();
    assert_eq!(contract.check_subscription(&bob).expires_at, 2_592_050);
    assert_eq!(contract.check_subscription(&carol).expires_at, 2_592_003);
}

#[test]
fn latest_time_that_leaves_room_for_a_period() {
    let owner = address("owner");
    let user = address("user");
    let mut contract = priced(&owner, 1, 1_000);
    let now = u64::MAX - SECONDS_PER_30_DAYS;
    contract.subscribe(&user, now, &amount(1_000), 1).unwrap();
    assert_eq!(contract.check_subscription(&user).expires_at, u64::MAX);
}

#[test]
fn check_tier_accepts_one_to_three() {
    assert_eq!(check_tier(0), Err(ContractError::InvalidTier));
    assert_eq!(check_tier(1), Ok(()));
    assert_eq!(check_tier(2), Ok(()));
    assert_eq!(check_tier(3), Ok(()));
    assert_eq!(check_tier(4), Err(ContractError::InvalidTier));
    assert_eq!(check_tier(u8::MAX), Err(ContractError::InvalidTier));
}

#[test]
fn open_subscription_looks_at_tier_then_price_then_payment() {
    let zero = Amount::zero();
    let ten = amount(10);
    let nine = amount(9);
    assert_eq!(open_subscription(0, &zero, &nine, 5), Err(ContractError::InvalidTier));
    assert_eq!(open_subscription(4, &ten, &ten, 5), Err(ContractError::InvalidTier));
    assert_eq!(open_subscription(1, &zero, &nine, 5), Err(ContractError::PricingNotSet));
    assert_eq!(open_subscription(1, &zero, &zero, 5), Err(ContractError::PricingNotSet));
    assert_eq!(open_subscription(1, &ten, &nine, 5), Err(ContractError::IncorrectPayment));
    assert_eq!(open_subscription(1, &ten, &zero, 5), Err(ContractError::IncorrectPayment));
    assert_eq!(
        open_subscription(2, &ten, &ten, 5),
        Ok(SubscriptionInfo { tier: 2, expires_at: 2_592_005, arguments_used: 0 })
    );
}

#[test]
fn pricing_looks_at_the_caller_then_at_the_tier() {
    let owner = address("owner");
    let stranger = address("stranger");
    assert_eq!(admit_pricing(&stranger, &owner, 0), Err(ContractError::NotOwner));
    assert_eq!(admit_pricing(&stranger, &owner, 1), Err(ContractError::NotOwner));
    assert_eq!(admit_pricing(&owner, &owner, 0), Err(ContractError::InvalidTier));
    assert_eq!(admit_pricing(&owner, &owner, 4), Err(ContractError::InvalidTier));
    for tier in 1u8..=3 {
        assert_eq!(admit_pricing(&owner, &owner, tier), Ok(()));
    }
}

#[test]
fn cancelling_needs_a_record() {
    assert_eq!(check_cancellable(true), Ok(()));
    assert_eq!(check_cancellable(false), Err(ContractError::NoActiveSubscription));
}

#[test]
fn query_reports_the_record_or_none() {
    let kept = SubscriptionInfo { tier: 2, expires_at: 1, arguments_used: 0 };
    assert_eq!(reported_record(Some(kept)), kept);
    assert_eq!(
        reported_record(None),
        SubscriptionInfo { tier: 0, expires_at: 0, arguments_used: 0 }
    );
}
