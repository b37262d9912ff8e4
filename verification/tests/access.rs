use dialectical_payments::access::{ensure_owner, ensure_relayer};
use dialectical_payments::address::Address;
use dialectical_payments::amount::Amount;
use dialectical_payments::contract::DialecticalPayments;
use dialectical_payments::error::{ContractError, USER_ERROR_STATUS};
use dialectical_payments::subscription::SubscriptionInfo;

fn address(name: &str) -> Address {
    let mut bytes = [b'_'; 32];
    bytes[..name.len()].copy_from_slice(name.as_bytes());
    Address::from_bytes(bytes)
}

fn text(s: &str) -> Vec<u8> {
    s.as_bytes().to_vec()
}

#[test]
fn fresh_contract_has_an_owner_and_nothing_else() {
    let owner = address("owner");
    let contract = DialecticalPayments::init(owner);
    assert_eq!(contract.owner(), owner);
    assert_eq!(contract.relayer(), Address::zero());
    for tier in 0u8..=4 {
        assert!(contract.tier_pricing(tier).is_zero());
    }
    assert_eq!(contract.check_subscription(&owner), SubscriptionInfo::none());
    assert_eq!(contract.get_argument(0), Err(ContractError::ArgumentNotFound));
    assert_eq!(contract.get_debate_arguments(0), Vec::<u64>::new());
}

#[test]
fn owner_gate() {
    let owner = address("owner");
    let other = address("other");
    assert_eq!(ensure_owner(&owner, &owner), Ok(()));
    assert_eq!(ensure_owner(&other, &owner), Err(ContractError::NotOwner));
}

#[test]
fn relayer_gate() {
    let relayer = address("relayer");
    let other = address("other");
    assert_eq!(ensure_relayer(&relayer, &relayer), Ok(()));
    assert_eq!(ensure_relayer(&other, &relayer), Err(ContractError::NotRelayer));
}

#[test]
fn the_two_gates_have_their_own_messages() {
    assert_eq!(ContractError::NotOwner.message(), "Endpoint can only be called by owner");
    assert_eq!(ContractError::NotRelayer.message(), "Only relayer can store arguments");
    assert_ne!(ContractError::NotOwner.message(), ContractError::NotRelayer.message());
}

#[test]
fn every_failure_has_its_own_message_and_is_a_user_error() {
    let all = [
        (ContractError::InvalidTier, "Invalid tier (1-3)"),
        (ContractError::PricingNotSet, "Tier pricing not set"),
        (ContractError::IncorrectPayment, "Incorrect payment amount"),
        (ContractError::NoActiveSubscription, "No active subscription"),
        (ContractError::NotRelayer, "Only relayer can store arguments"),
        (ContractError::InvalidArgumentType, "Invalid argument type (0-2)"),
        (ContractError::InvalidQualityScore, "Quality score must be 0-10000"),
        (ContractError::EmptyText, "Text cannot be empty"),
        (ContractError::ArgumentIdExists, "Argument ID already exists"),
        (ContractError::ArgumentNotFound, "Argument not found"),
        (ContractError::NotOwner, "Endpoint can only be called by owner"),
    ];
    assert_eq!(USER_ERROR_STATUS, 4);
    for (i, (error, message)) in all.iter().enumerate() {
        assert_eq!(error.message(), *message);
        assert_eq!(error.status(), 4);
        for (other, _) in all.iter().skip(i + 1) {
            assert_ne!(error.message(), other.message());
        }
    }
}

#[test]
fn only_the_owner_sets_the_relayer() {
    let owner = address("owner");
    let relayer = address("relayer");
    let stranger = address("stranger");
    let mut contract = DialecticalPayments::init(owner);
    assert_eq!(contract.set_relayer(&stranger, stranger), Err(ContractError::NotOwner));
    assert_eq!(contract.relayer(), Address::zero());
    assert_eq!(contract.set_relayer(&owner, relayer), Ok(()));
    assert_eq!(contract.relayer(), relayer);
    assert_eq!(contract.set_relayer(&relayer, stranger), Err(ContractError::NotOwner));
    assert_eq!(contract.relayer(), relayer);
}

#[test]
fn only_the_owner_sets_prices() {
    let owner = address("owner");
    let relayer = address("relayer");
    let stranger = address("stranger");
    let mut contract = DialecticalPayments::init(owner);
    contract.set_relayer(&owner, relayer).unwrap();
    for caller in [stranger, relayer, Address::zero()] {
        let result = contract.set_tier_pricing(&caller, 1, Amount::from_u128(5));
        assert_eq!(result, Err(ContractError::NotOwner));
        assert_eq!(result.unwrap_err().message(), "Endpoint can only be called by owner");
        assert!(contract.tier_pricing(1).is_zero());
    }
    assert_eq!(contract.set_tier_pricing(&owner, 1, Amount::from_u128(5)), Ok(()));
    assert_eq!(contract.tier_pricing(1), Amount::from_u128(5));
}

#[test]
fn stranger_with_a_bad_tier_is_told_about_ownership() {
    let owner = address("owner");
    let stranger = address("stranger");
    let mut contract = DialecticalPayments::init(owner);
    assert_eq!(
        contract.set_tier_pricing(&stranger, 0, Amount::from_u128(5)),
        Err(ContractError::NotOwner)
    );
    assert_eq!(
        contract.set_tier_pricing(&owner, 0, Amount::from_u128(5)),
        Err(ContractError::InvalidTier)
    );
    assert_eq!(
        contract.set_tier_pricing(&owner, 4, Amount::from_u128(5)),
        Err(ContractError::InvalidTier)
    );
}

#[test]
fn pricing_one_tier_leaves_the_others() {
    let owner = address("owner");
    let mut contract = DialecticalPayments::init(owner);
    contract.set_tier_pricing(&owner, 1, Amount::from_u128(100)).unwrap();
    contract.set_tier_pricing(&owner, 2, Amount::from_u128(200)).unwrap();
    contract.set_tier_pricing(&owner, 3, Amount::from_u128(300)).unwrap();
    contract.set_tier_pricing(&owner, 2, Amount::from_u128(250)).unwrap();
    assert_eq!(contract.tier_pricing(1), Amount::from_u128(100));
    assert_eq!(contract.tier_pricing(2), Amount::from_u128(250));
    assert_eq!(contract.tier_pricing(3), Amount::from_u128(300));
}

#[test]
fn new_relayer_replaces_the_old_at_once() {
    let owner = address("owner");
    let first = address("first");
    let second = address("second");
    let mut contract = DialecticalPayments::init(owner);
    contract.set_relayer(&owner, first).unwrap();
    assert!(contract.store_argument(&first, 0, 1, 1, 0, 0, text("a")).is_ok());
    contract.set_relayer(&owner, second).unwrap();
    assert_eq!(
        contract.store_argument(&first, 0, 2, 1, 0, 0, text("b")),
        Err(ContractError::NotRelayer)
    );
    assert!(contract.store_argument(&second, 0, 2, 1, 0, 0, text("b")).is_ok());
    assert_eq!(contract.get_debate_arguments(1), vec![1, 2]);
}

#[test]
fn owner_is_not_relayer_by_office() {
    let owner = address("owner");
    let relayer = address("relayer");
    let mut contract = DialecticalPayments::init(owner);
    contract.set_relayer(&owner, relayer).unwrap();
    assert_eq!(
        contract.store_argument(&owner, 0, 1, 1, 0, 0, text("a")),
        Err(ContractError::NotRelayer)
    );
    contract.set_relayer(&owner, owner).unwrap();
    assert!(contract.store_argument(&owner, 0, 1, 1, 0, 0, text("a")).is_ok());
}

#[test]
fn relayer_may_be_set_to_nobody() {
    let owner = address("owner");
    let relayer = address("relayer");
    let mut contract = DialecticalPayments::init(owner);
    contract.set_relayer(&owner, relayer).unwrap();
    assert_eq!(contract.set_relayer(&owner, Address::zero()), Ok(()));
    assert_eq!(contract.relayer(), Address::zero());
    assert_eq!(
        contract.store_argument(&relayer, 0, 1, 1, 0, 0, text("a")),
        Err(ContractError::NotRelayer)
    );
}

#[test]
fn upgrade_keeps_the_state() {
    let owner = address("owner");
    let relayer = address("relayer");
    let user = address("user");
    let mut contract = DialecticalPayments::init(owner);
    contract.set_relayer(&owner, relayer).unwrap();
    contract.set_tier_pricing(&owner, 1, Amount::from_u128(9)).unwrap();
    contract.subscribe(&user, 3, &Amount::from_u128(9), 1).unwrap();
    contract.store_argument(&relayer, 4, 1, 2, 0, 0, text("a")).unwrap();
    contract.upgrade();
    assert_eq!(contract.owner(), owner);
    assert_eq!(contract.relayer(), relayer);
    assert_eq!(contract.tier_pricing(1), Amount::from_u128(9));
    assert_eq!(contract.check_subscription(&user).expires_at, 2_592_003);
    assert_eq!(contract.get_argument(1), Ok(text("a")));
    assert_eq!(contract.get_debate_arguments(2), vec![1]);
}
