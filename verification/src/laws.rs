//! What holds of the contract across calls.
//!
//! Each law is stated over `State` and the functions that the operations of
//! `DialecticalPayments` are specified with, so it holds of every run of the
//! contract.

use vstd::prelude::*;
use crate::address::Address;
use crate::argument::{MAX_ARGUMENT_TYPE, MAX_QUALITY_SCORE};
use crate::error::ContractError;
use crate::events::Event;
use crate::state::State;
use crate::subscription::{valid_tier, SubscriptionInfo, SECONDS_PER_30_DAYS};

verus! {

/// A call of one of the operations that can change the state.
pub enum Call {
    Subscribe { payment: nat, tier: u8 },
    CancelSubscription,
    StoreArgument {
        id: u64,
        debate_id: u64,
        argument_type: u8,
        quality_score: u32,
        text: Seq<u8>,
    },
    SetRelayer { address: Address },
    SetTierPricing { tier: u8, price: nat },
}

/// The ledger time leaves room for a subscription period.
pub open spec fn in_time(now: u64) -> bool {
    now + SECONDS_PER_30_DAYS <= u64::MAX
}

/// The state after `caller` made `call` at time `now`.
pub open spec fn step(s: State, caller: Address, now: u64, call: Call) -> State {
    match call {
        Call::Subscribe { payment, tier } => s.subscribe(caller, now, payment, tier),
        Call::CancelSubscription => s.cancel_subscription(caller),
        Call::StoreArgument { id, debate_id, argument_type, quality_score, text } => s.store_argument(
            caller,
            now,
            id,
            debate_id,
            argument_type,
            quality_score,
            text,
        ),
        Call::SetRelayer { address } => s.set_relayer(caller, address),
        Call::SetTierPricing { tier, price } => s.set_tier_pricing(caller, tier, price),
    }
}

/// The state after deployment is reachable.
pub proof fn lemma_initial_wf(owner: Address)
    ensures
        State::initial(owner).wf(),
{
}

/// Every call leads from a reachable state to a reachable state.
pub proof fn lemma_step_keeps_wf(s: State, caller: Address, now: u64, call: Call)
    requires
        s.wf(),
        in_time(now),
    ensures
        step(s, caller, now, call).wf(),
{
    match call {
        Call::StoreArgument { id, debate_id, argument_type, quality_score, text } => {
            State::lemma_store_argument_keeps_wf(
                s,
                caller,
                now,
                id,
                debate_id,
                argument_type,
                quality_score,
                text,
            );
        },
        _ => {},
    }
}

/// No call changes the owner.
pub proof fn lemma_owner_is_fixed(s: State, caller: Address, now: u64, call: Call)
    ensures
        step(s, caller, now, call).owner == s.owner,
{
}

/// A call by anybody but the owner changes neither the relayer nor a price.
pub proof fn lemma_only_owner_configures(s: State, caller: Address, now: u64, call: Call)
    requires
        caller != s.owner,
    ensures
        step(s, caller, now, call).relayer == s.relayer,
        step(s, caller, now, call).prices == s.prices,
{
}

/// A call by anybody but the relayer stores nothing.
pub proof fn lemma_only_relayer_stores(s: State, caller: Address, now: u64, call: Call)
    requires
        caller != s.relayer,
    ensures
        step(s, caller, now, call).texts == s.texts,
        step(s, caller, now, call).metadata == s.metadata,
        step(s, caller, now, call).debates == s.debates,
{
}

/// A call changes no subscription record but the caller's own.
pub proof fn lemma_own_record_only(s: State, caller: Address, now: u64, call: Call, user: Address)
    requires
        user != caller,
    ensures
        step(s, caller, now, call).subscription(user) == s.subscription(user),
{
}

/// Arguments are written once: whatever is called afterwards, a stored
/// argument keeps its text and its metadata.
pub proof fn lemma_arguments_are_write_once(
    s: State,
    caller: Address,
    now: u64,
    call: Call,
    id: u64,
)
    requires
        s.texts.contains_key(id),
    ensures
        step(s, caller, now, call).texts.contains_key(id),
        step(s, caller, now, call).texts[id] == s.texts[id],
        step(s, caller, now, call).metadata[id] == s.metadata[id],
{
}

/// Debates only grow, and only at the end: whatever is called, what a debate
/// held before is the beginning of what it holds afterwards.
pub proof fn lemma_debates_are_append_only(
    s: State,
    caller: Address,
    now: u64,
    call: Call,
    debate_id: u64,
)
    ensures
        s.debate_arguments(debate_id).is_prefix_of(
            step(s, caller, now, call).debate_arguments(debate_id),
        ),
{
}

/// Once the owner has priced a tier, that is the tier's price, and the other
/// tiers cost what they did.
pub proof fn lemma_price_is_what_was_set(s: State, tier: u8, price: nat, other: u8)
    requires
        s.wf(),
        valid_tier(tier),
    ensures
        s.set_tier_pricing(s.owner, tier, price).price(tier) == price,
        other != tier ==> s.set_tier_pricing(s.owner, tier, price).price(other) == s.price(other),
{
}

/// A priced tier is bought with the exact price and with nothing else: any
/// other payment is refused as incorrect and changes nothing, and the exact
/// payment gives the caller the tier for thirty days from the time of the
/// call.
pub proof fn lemma_exact_payment(s: State, caller: Address, now: u64, payment: nat, tier: u8)
    requires
        valid_tier(tier),
        s.price(tier) > 0,
        in_time(now),
    ensures
        payment != s.price(tier) ==> {
            &&& s.subscribe_result(caller, now, payment, tier) == Err::<Event, ContractError>(
                ContractError::IncorrectPayment,
            )
            &&& s.subscribe(caller, now, payment, tier) == s
        },
        payment == s.price(tier) ==> {
            &&& s.subscribe_result(caller, now, payment, tier) is Ok
            &&& s.subscribe(caller, now, payment, tier).subscription(caller) == (SubscriptionInfo {
                tier,
                expires_at: (now + SECONDS_PER_30_DAYS) as u64,
                arguments_used: 0,
            })
        },
{
}

/// The same, from the owner's call on: after the owner has set a price that
/// is not zero, a payment of another amount is refused as incorrect, and a
/// payment of that amount buys thirty days from the time of the purchase.
pub proof fn lemma_set_price_then_subscribe(
    s: State,
    tier: u8,
    price: nat,
    caller: Address,
    now: u64,
    payment: nat,
)
    requires
        s.wf(),
        valid_tier(tier),
        price > 0,
        in_time(now),
    ensures
        ({
            let priced = s.set_tier_pricing(s.owner, tier, price);
            &&& payment != price ==> priced.subscribe_result(caller, now, payment, tier) == Err::<
                Event,
                ContractError,
            >(ContractError::IncorrectPayment)
            &&& payment == price ==> priced.subscribe_result(caller, now, payment, tier) is Ok
                && priced.subscribe(caller, now, payment, tier).subscription(caller).expires_at
                == now + SECONDS_PER_30_DAYS
        }),
{
    lemma_price_is_what_was_set(s, tier, price, tier);
    lemma_exact_payment(s.set_tier_pricing(s.owner, tier, price), caller, now, payment, tier);
}

/// Renewing restarts the period: after two accepted purchases the
/// subscription ends thirty days after the second, whenever the first was
/// made and whatever it bought.
pub proof fn lemma_renewal_restarts_period(
    s: State,
    caller: Address,
    first: u64,
    first_payment: nat,
    first_tier: u8,
    second: u64,
    second_payment: nat,
    second_tier: u8,
)
    requires
        in_time(second),
        s.subscribe_result(caller, first, first_payment, first_tier) is Ok,
        s.subscribe(caller, first, first_payment, first_tier).subscribe_result(
            caller,
            second,
            second_payment,
            second_tier,
        ) is Ok,
    ensures
        s.subscribe(caller, first, first_payment, first_tier).subscribe(
            caller,
            second,
            second_payment,
            second_tier,
        ).subscription(caller) == (SubscriptionInfo {
            tier: second_tier,
            expires_at: (second + SECONDS_PER_30_DAYS) as u64,
            arguments_used: 0,
        }),
{
}

/// A subscription that has reached its expiry is not active, and one that
/// has not is.
pub proof fn lemma_active_until_expiry(info: SubscriptionInfo, current_timestamp: u64)
    ensures
        current_timestamp >= info.expires_at ==> !info.spec_is_active(current_timestamp),
        current_timestamp < info.expires_at ==> info.spec_is_active(current_timestamp),
{
}

/// Somebody without a record cannot cancel, and the attempt changes nothing.
pub proof fn lemma_cancel_needs_record(s: State, caller: Address)
    requires
        !s.subscriptions.contains_key(caller),
    ensures
        s.cancel_subscription_result(caller) == Err::<Event, ContractError>(
            ContractError::NoActiveSubscription,
        ),
        s.cancel_subscription(caller) == s,
{
}

/// After an accepted purchase the buyer can cancel, and is then without a
/// subscription.
pub proof fn lemma_subscribe_then_cancel(
    s: State,
    caller: Address,
    now: u64,
    payment: nat,
    tier: u8,
)
    requires
        s.subscribe_result(caller, now, payment, tier) is Ok,
    ensures
        s.subscribe(caller, now, payment, tier).cancel_subscription_result(caller) is Ok,
        s.subscribe(caller, now, payment, tier).cancel_subscription(caller).subscription(caller)
            == SubscriptionInfo::spec_none(),
{
}

/// An identifier that holds a text is refused, whoever calls and whatever
/// the new argument is, and the attempt changes nothing.
pub proof fn lemma_used_id_is_refused(
    s: State,
    caller: Address,
    now: u64,
    id: u64,
    debate_id: u64,
    argument_type: u8,
    quality_score: u32,
    text: Seq<u8>,
)
    requires
        s.texts.contains_key(id),
    ensures
        s.store_argument_result(caller, id, debate_id, argument_type, quality_score, text) is Err,
        s.store_argument(caller, now, id, debate_id, argument_type, quality_score, text) == s,
{
}

/// An argument that is in range, has a text and a fresh identifier is
/// admitted from the relayer.
pub proof fn lemma_relayer_is_admitted(
    s: State,
    id: u64,
    debate_id: u64,
    argument_type: u8,
    quality_score: u32,
    text: Seq<u8>,
)
    requires
        argument_type <= MAX_ARGUMENT_TYPE,
        quality_score <= MAX_QUALITY_SCORE,
        text.len() > 0,
        !s.texts.contains_key(id),
    ensures
        s.store_argument_result(s.relayer, id, debate_id, argument_type, quality_score, text)
            == Ok::<Event, ContractError>(
            Event::ArgumentStored { argument_id: id, debate_id, argument_type, quality_score },
        ),
{
}

/// An admitted argument comes last in its debate, after all that the debate
/// held, and no other debate changes.
pub proof fn lemma_stored_last(
    s: State,
    caller: Address,
    now: u64,
    id: u64,
    debate_id: u64,
    argument_type: u8,
    quality_score: u32,
    text: Seq<u8>,
    other: u64,
)
    requires
        s.store_argument_result(caller, id, debate_id, argument_type, quality_score, text) is Ok,
    ensures
        ({
            let stored = s.store_argument(
                caller,
                now,
                id,
                debate_id,
                argument_type,
                quality_score,
                text,
            );
            &&& stored.debate_arguments(debate_id) == s.debate_arguments(debate_id).push(id)
            &&& stored.texts[id] == text
            &&& other != debate_id ==> stored.debate_arguments(other) == s.debate_arguments(other)
        }),
{
}

/// Only the relayer in office stores: once the owner has named a relayer,
/// whoever was relayer before is refused as any stranger is, and the new
/// relayer is admitted, from the very next call.
pub proof fn lemma_relayer_change_is_immediate(
    s: State,
    former: Address,
    successor: Address,
    id: u64,
    debate_id: u64,
    argument_type: u8,
    quality_score: u32,
    text: Seq<u8>,
)
    requires
        former != successor,
    ensures
        ({
            let changed = s.set_relayer(s.owner, successor);
            &&& changed.relayer == successor
            &&& changed.store_argument_result(
                former,
                id,
                debate_id,
                argument_type,
                quality_score,
                text,
            ) == Err::<Event, ContractError>(ContractError::NotRelayer)
            &&& changed.store_argument_result(
                successor,
                id,
                debate_id,
                argument_type,
                quality_score,
                text,
            ) != Err::<Event, ContractError>(ContractError::NotRelayer)
            &&& (argument_type <= MAX_ARGUMENT_TYPE && quality_score <= MAX_QUALITY_SCORE
                && text.len() > 0 && !s.texts.contains_key(id))
                ==> changed.store_argument_result(
                successor,
                id,
                debate_id,
                argument_type,
                quality_score,
                text,
            ) == Ok::<Event, ContractError>(
                Event::ArgumentStored { argument_id: id, debate_id, argument_type, quality_score },
            )
        }),
{
}

/// Only the owner configures: from anybody else, the relayer included, both
/// administrative calls are refused for want of ownership and change
/// nothing.
pub proof fn lemma_admin_is_owner_only(
    s: State,
    caller: Address,
    address: Address,
    tier: u8,
    price: nat,
)
    requires
        caller != s.owner,
    ensures
        s.set_relayer_result(caller) == Err::<(), ContractError>(ContractError::NotOwner),
        s.set_relayer(caller, address) == s,
        s.set_tier_pricing_result(caller, tier) == Err::<(), ContractError>(
            ContractError::NotOwner,
        ),
        s.set_tier_pricing(caller, tier, price) == s,
{
}

/// The owner's role gives no right to store: an owner who is not the relayer
/// is refused like anybody else.
pub proof fn lemma_owner_is_not_relayer(
    s: State,
    id: u64,
    debate_id: u64,
    argument_type: u8,
    quality_score: u32,
    text: Seq<u8>,
)
    requires
        s.owner != s.relayer,
    ensures
        s.store_argument_result(s.owner, id, debate_id, argument_type, quality_score, text)
            == Err::<Event, ContractError>(ContractError::NotRelayer),
{
}

} // verus!
