//! The contract as a mathematical state machine.
//!
//! `State` is what the contract remembers between calls. For each operation
//! there is a function that gives the outcome of a call (the notification, or
//! the reason for refusing) and one that gives the state after it. A refused
//! call leaves the state as it was.

use vstd::prelude::*;
use crate::address::Address;
use crate::argument::{argument_refusal, ArgumentMetadata};
use crate::error::ContractError;
use crate::events::Event;
use crate::subscription::{
    pricing_refusal,
    subscription_refusal,
    valid_tier,
    SubscriptionInfo,
    SECONDS_PER_30_DAYS,
};

verus! {

/// Everything the contract remembers.
#[verifier::ext_equal]
pub struct State {
    /// Who deployed the contract. Never changes.
    pub owner: Address,
    /// Who may store arguments. The zero identity until the owner sets one.
    pub relayer: Address,
    /// The price of tier 1, 2 and 3, in this order; zero where none is set.
    pub prices: Seq<nat>,
    /// The subscription record of each subscriber who has one.
    pub subscriptions: Map<Address, SubscriptionInfo>,
    /// The text of each stored argument.
    pub texts: Map<u64, Seq<u8>>,
    /// The metadata of each stored argument.
    pub metadata: Map<u64, ArgumentMetadata>,
    /// For each debate that has arguments, their identifiers in the order in
    /// which they were stored.
    pub debates: Map<u64, Seq<u64>>,
}

impl State {
    /// The state of a contract that `owner` has just deployed.
    pub open spec fn initial(owner: Address) -> State {
        State {
            owner,
            relayer: Address::spec_zero(),
            prices: seq![0nat, 0nat, 0nat],
            subscriptions: Map::empty(),
            texts: Map::empty(),
            metadata: Map::empty(),
            debates: Map::empty(),
        }
    }

    /// The price of `tier`: zero if none is set or the tier does not exist.
    pub open spec fn price(self, tier: u8) -> nat {
        if valid_tier(tier) {
            self.prices[tier - 1]
        } else {
            0
        }
    }

    /// The record of `user`: the record of no subscription if none is kept.
    pub open spec fn subscription(self, user: Address) -> SubscriptionInfo {
        if self.subscriptions.contains_key(user) {
            self.subscriptions[user]
        } else {
            SubscriptionInfo::spec_none()
        }
    }

    /// The arguments of `debate_id`, oldest first; none if the debate has
    /// never had one.
    pub open spec fn debate_arguments(self, debate_id: u64) -> Seq<u64> {
        if self.debates.contains_key(debate_id) {
            self.debates[debate_id]
        } else {
            Seq::empty()
        }
    }

    /// What holds of every state that the operations can reach.
    pub open spec fn wf(self) -> bool {
        &&& self.prices.len() == 3
        &&& forall|user: Address| #[trigger]
            self.subscriptions.contains_key(user) ==> {
                &&& valid_tier(self.subscriptions[user].tier)
                &&& self.subscriptions[user].expires_at >= SECONDS_PER_30_DAYS
                &&& self.subscriptions[user].arguments_used == 0
            }
        &&& self.texts.dom() == self.metadata.dom()
        &&& forall|id: u64| #[trigger]
            self.texts.contains_key(id) ==> {
                &&& self.texts[id].len() > 0
                &&& self.metadata[id].valid()
                &&& self.debate_arguments(self.metadata[id].debate_id).contains(id)
            }
        &&& forall|debate_id: u64| #[trigger]
            self.debates.contains_key(debate_id) ==> self.debates[debate_id].no_duplicates()
        &&& forall|debate_id: u64, i: int|
            self.debates.contains_key(debate_id) && 0 <= i < self.debates[debate_id].len() ==> {
                &&& self.texts.contains_key(#[trigger] self.debates[debate_id][i])
                &&& self.metadata[self.debates[debate_id][i]].debate_id == debate_id
            }
    }

    /// The outcome of `caller` buying `tier` with `payment` at time `now`.
    pub open spec fn subscribe_result(
        self,
        caller: Address,
        now: u64,
        payment: nat,
        tier: u8,
    ) -> Result<Event, ContractError> {
        match subscription_refusal(tier, self.price(tier), payment) {
            Some(e) => Err(e),
            None => Ok(
                Event::SubscriptionCreated {
                    user: caller,
                    tier,
                    expires_at: SubscriptionInfo::spec_fresh(tier, now).expires_at,
                },
            ),
        }
    }

    /// The state after `caller` tried to buy `tier` with `payment` at time
    /// `now`: an accepted purchase replaces the caller's record.
    pub open spec fn subscribe(self, caller: Address, now: u64, payment: nat, tier: u8) -> State {
        if self.subscribe_result(caller, now, payment, tier) is Ok {
            State {
                subscriptions: self.subscriptions.insert(
                    caller,
                    SubscriptionInfo::spec_fresh(tier, now),
                ),
                ..self
            }
        } else {
            self
        }
    }

    /// The outcome of `caller` cancelling: refused unless a record is kept,
    /// whether it has expired or not.
    pub open spec fn cancel_subscription_result(self, caller: Address) -> Result<
        Event,
        ContractError,
    > {
        if self.subscriptions.contains_key(caller) {
            Ok(Event::SubscriptionCancelled { user: caller })
        } else {
            Err(ContractError::NoActiveSubscription)
        }
    }

    /// The state after `caller` tried to cancel: an accepted cancellation
    /// deletes the caller's record.
    pub open spec fn cancel_subscription(self, caller: Address) -> State {
        if self.cancel_subscription_result(caller) is Ok {
            State { subscriptions: self.subscriptions.remove(caller), ..self }
        } else {
            self
        }
    }

    /// The outcome of `caller` storing `text` under `id`.
    pub open spec fn store_argument_result(
        self,
        caller: Address,
        id: u64,
        debate_id: u64,
        argument_type: u8,
        quality_score: u32,
        text: Seq<u8>,
    ) -> Result<Event, ContractError> {
        match argument_refusal(
            caller,
            self.relayer,
            argument_type,
            quality_score,
            text,
            self.texts.contains_key(id),
        ) {
            Some(e) => Err(e),
            None => Ok(
                Event::ArgumentStored { argument_id: id, debate_id, argument_type, quality_score },
            ),
        }
    }

    /// The state after `caller` tried to store `text` under `id` at time
    /// `now`: an admitted argument is recorded with its metadata, and its
    /// identifier comes last in its debate.
    pub open spec fn store_argument(
        self,
        caller: Address,
        now: u64,
        id: u64,
        debate_id: u64,
        argument_type: u8,
        quality_score: u32,
        text: Seq<u8>,
    ) -> State {
        if self.store_argument_result(caller, id, debate_id, argument_type, quality_score, text)
            is Ok {
            State {
                texts: self.texts.insert(id, text),
                metadata: self.metadata.insert(
                    id,
                    ArgumentMetadata::spec_fresh(debate_id, argument_type, quality_score, now),
                ),
                debates: self.debates.insert(debate_id, self.debate_arguments(debate_id).push(id)),
                ..self
            }
        } else {
            self
        }
    }

    /// Storing an argument leads from a reachable state to a reachable state.
    pub proof fn lemma_store_argument_keeps_wf(
        s: State,
        caller: Address,
        now: u64,
        id: u64,
        debate_id: u64,
        argument_type: u8,
        quality_score: u32,
        text: Seq<u8>,
    )
        requires
            s.wf(),
        ensures
            s.store_argument(caller, now, id, debate_id, argument_type, quality_score, text).wf(),
    {
        let t = s.store_argument(caller, now, id, debate_id, argument_type, quality_score, text);
        if s.store_argument_result(caller, id, debate_id, argument_type, quality_score, text)
            is Ok {
            let old_ids = s.debate_arguments(debate_id);
            let new_ids = old_ids.push(id);
            assert(t.texts.dom() =~= t.metadata.dom());
            assert(!old_ids.contains(id)) by {
                if old_ids.contains(id) {
                    let i = choose|i: int| 0 <= i < old_ids.len() && old_ids[i] == id;
                    assert(s.texts.contains_key(s.debates[debate_id][i]));
                }
            }
            assert(new_ids.no_duplicates());
            assert forall|other: u64| #[trigger] t.texts.contains_key(other) implies {
                &&& t.texts[other].len() > 0
                &&& t.metadata[other].valid()
                &&& t.debate_arguments(t.metadata[other].debate_id).contains(other)
            } by {
                if other == id {
                    assert(new_ids[old_ids.len() as int] == id);
                } else {
                    let d = s.metadata[other].debate_id;
                    assert(s.debate_arguments(d).contains(other));
                    if d == debate_id {
                        let i = choose|i: int| 0 <= i < old_ids.len() && old_ids[i] == other;
                        assert(new_ids[i] == other);
                    }
                }
            }
            assert forall|d: u64, i: int|
                t.debates.contains_key(d) && 0 <= i < t.debates[d].len() implies {
                &&& t.texts.contains_key(#[trigger] t.debates[d][i])
                &&& t.metadata[t.debates[d][i]].debate_id == d
            } by {
                if d == debate_id {
                    if i < old_ids.len() {
                        assert(new_ids[i] == s.debates[d][i]);
                    }
                } else {
                    assert(t.debates[d][i] == s.debates[d][i]);
                }
            }
        }
    }

    /// The outcome of `caller` naming a relayer: refused unless the caller
    /// is the owner.
    pub open spec fn set_relayer_result(self, caller: Address) -> Result<(), ContractError> {
        if caller == self.owner {
            Ok(())
        } else {
            Err(ContractError::NotOwner)
        }
    }

    /// The state after `caller` tried to make `address` the relayer.
    pub open spec fn set_relayer(self, caller: Address, address: Address) -> State {
        if self.set_relayer_result(caller) is Ok {
            State { relayer: address, ..self }
        } else {
            self
        }
    }

    /// The outcome of `caller` pricing `tier`: the caller is looked at
    /// first, then the tier.
    pub open spec fn set_tier_pricing_result(self, caller: Address, tier: u8) -> Result<
        (),
        ContractError,
    > {
        match pricing_refusal(caller, self.owner, tier) {
            Some(e) => Err(e),
            None => Ok(()),
        }
    }

    /// The state after `caller` tried to price `tier` at `price`. Any price
    /// is taken, zero too.
    pub open spec fn set_tier_pricing(self, caller: Address, tier: u8, price: nat) -> State {
        if self.set_tier_pricing_result(caller, tier) is Ok {
            State { prices: self.prices.update(tier - 1, price), ..self }
        } else {
            self
        }
    }
}

} // verus!
