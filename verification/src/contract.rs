//! The contract: its state, and the operations that callers reach.
//!
//! Every operation is one atomic step. It is handed who calls, and where it
//! matters the ledger time and the payment that came with the call. It
//! either succeeds, or it fails with a reason and changes nothing.

use std::collections::HashMap;
use vstd::prelude::*;
use crate::access::ensure_owner;
use crate::address::Address;
use crate::amount::Amount;
use crate::argument::{admit_argument, check_stored, ArgumentMetadata};
use crate::error::ContractError;
use crate::events::Event;
use crate::state::State;
use crate::subscribers::Subscribers;
use crate::subscription::{
    admit_pricing,
    check_cancellable,
    open_subscription,
    reported_record,
    SubscriptionInfo,
    MAX_TIER,
    SECONDS_PER_30_DAYS,
};

verus! {

broadcast use vstd::std_specs::hash::group_hash_axioms;

/// Subscription management and argument storage.
///
/// Arguments are stored by a trusted relayer. Subscriptions are paid for
/// directly, at tier prices set by the owner.
pub struct DialecticalPayments {
    owner: Address,
    relayer: Address,
    tier_pricing: Vec<Amount>,
    subscriptions: Subscribers,
    argument_text: HashMap<u64, Vec<u8>>,
    argument_metadata: HashMap<u64, ArgumentMetadata>,
    debate_arguments: HashMap<u64, Vec<u64>>,
}

impl View for DialecticalPayments {
    type V = State;

    closed spec fn view(&self) -> State {
        State {
            owner: self.owner,
            relayer: self.relayer,
            prices: Seq::new(self.tier_pricing@.len(), |i: int| self.tier_pricing@[i]@),
            subscriptions: self.subscriptions@,
            texts: Map::new(
                |id: u64| self.argument_text@.contains_key(id),
                |id: u64| self.argument_text@[id]@,
            ),
            metadata: self.argument_metadata@,
            debates: Map::new(
                |debate_id: u64| self.debate_arguments@.contains_key(debate_id),
                |debate_id: u64| self.debate_arguments@[debate_id]@,
            ),
        }
    }
}

impl DialecticalPayments {
    /// The contract is in a state that its operations can reach.
    pub closed spec fn wf(&self) -> bool {
        &&& self.subscriptions.wf()
        &&& self@.wf()
    }

    /// Deploys the contract for `owner`: no relayer, no prices, nothing
    /// stored.
    pub fn init(owner: Address) -> (r: DialecticalPayments)
        ensures
            r.wf(),
            r@ == State::initial(owner),
    {
        let mut tier_pricing: Vec<Amount> = Vec::new();
        tier_pricing.push(Amount::zero());
        tier_pricing.push(Amount::zero());
        tier_pricing.push(Amount::zero());
        let r = DialecticalPayments {
            owner,
            relayer: Address::zero(),
            tier_pricing,
            subscriptions: Subscribers::new(),
            argument_text: HashMap::new(),
            argument_metadata: HashMap::new(),
            debate_arguments: HashMap::new(),
        };
        assert(r@ =~= State::initial(owner));
        r
    }

    /// Replaces the contract's code. The state is kept as it is.
    pub fn upgrade(&mut self)
        ensures
            *final(self) == *old(self),
    {
    }

    /// Subscribe by paying the exact amount for the requested tier.
    /// Creates or renews a 30-day subscription, counted from `now`.
    pub fn subscribe(&mut self, caller: &Address, now: u64, payment: &Amount, tier: u8) -> (r:
        Result<Event, ContractError>)
        requires
            old(self).wf(),
            now + SECONDS_PER_30_DAYS <= u64::MAX,
        ensures
            final(self).wf(),
            r == old(self)@.subscribe_result(*caller, now, payment@, tier),
            final(self)@ == old(self)@.subscribe(*caller, now, payment@, tier),
    {
        let price = self.tier_pricing(tier);
        let info = match open_subscription(tier, &price, payment, now) {
            Ok(info) => info,
            Err(e) => {
                return Err(e);
            },
        };
        self.subscriptions.insert(*caller, info);
        assert(self@ =~= old(self)@.subscribe(*caller, now, payment@, tier));
        Ok(Event::SubscriptionCreated { user: *caller, tier, expires_at: info.expires_at })
    }

    /// Cancel the caller's subscription. No refund. Clears the subscription
    /// record.
    pub fn cancel_subscription(&mut self, caller: &Address) -> (r: Result<Event, ContractError>)
        requires
            old(self).wf(),
        ensures
            final(self).wf(),
            r == old(self)@.cancel_subscription_result(*caller),
            final(self)@ == old(self)@.cancel_subscription(*caller),
    {
        let record = self.subscriptions.get(caller);
        match check_cancellable(record.is_some()) {
            Err(e) => {
                return Err(e);
            },
            Ok(_) => {},
        }
        self.subscriptions.remove(caller);
        assert(self@ =~= old(self)@.cancel_subscription(*caller));
        Ok(Event::SubscriptionCancelled { user: *caller })
    }

    /// View the subscription info for an address. Returns the record of no
    /// subscription (tier 0, expiry 0, nothing used) if there is none. The
    /// record is returned as it is kept, whether it has expired or not.
    pub fn check_subscription(&self, address: &Address) -> (r: SubscriptionInfo)
        requires
            self.wf(),
        ensures
            r == self@.subscription(*address),
    {
        reported_record(self.subscriptions.get(address))
    }

    /// Store an argument. Only callable by the designated relayer, and only
    /// once for each identifier.
    pub fn store_argument(
        &mut self,
        caller: &Address,
        now: u64,
        id: u64,
        debate_id: u64,
        argument_type: u8,
        quality_score: u32,
        full_text: Vec<u8>,
    ) -> (r: Result<Event, ContractError>)
        requires
            old(self).wf(),
        ensures
            final(self).wf(),
            r == old(self)@.store_argument_result(
                *caller,
                id,
                debate_id,
                argument_type,
                quality_score,
                full_text@,
            ),
            final(self)@ == old(self)@.store_argument(
                *caller,
                now,
                id,
                debate_id,
                argument_type,
                quality_score,
                full_text@,
            ),
    {
        let id_taken = self.argument_text.contains_key(&id);
        let metadata = match admit_argument(
            caller,
            &self.relayer,
            debate_id,
            argument_type,
            quality_score,
            full_text.as_slice(),
            id_taken,
            now,
        ) {
            Ok(metadata) => metadata,
            Err(e) => {
                return Err(e);
            },
        };
        let ghost text = full_text@;
        let ghost before = self@;
        let ghost after = before.store_argument(
            *caller,
            now,
            id,
            debate_id,
            argument_type,
            quality_score,
            text,
        );
        self.argument_text.insert(id, full_text);
        self.argument_metadata.insert(id, metadata);
        let mut ids = match self.debate_arguments.remove(&debate_id) {
            Some(ids) => ids,
            None => Vec::new(),
        };
        assert(ids@ == before.debate_arguments(debate_id));
        ids.push(id);
        self.debate_arguments.insert(debate_id, ids);
        proof {
            assert(self@.texts =~= after.texts);
            assert(self@.debates =~= after.debates);
            assert(self@ =~= after);
            State::lemma_store_argument_keeps_wf(
                before,
                *caller,
                now,
                id,
                debate_id,
                argument_type,
                quality_score,
                text,
            );
        }
        Ok(Event::ArgumentStored { argument_id: id, debate_id, argument_type, quality_score })
    }

    /// Get the full text of a stored argument.
    pub fn get_argument(&self, id: u64) -> (r: Result<Vec<u8>, ContractError>)
        requires
            self.wf(),
        ensures
            match r {
                Ok(text) => self@.texts.contains_key(id) && text@ == self@.texts[id],
                Err(e) => !self@.texts.contains_key(id) && e == ContractError::ArgumentNotFound,
            },
    {
        let stored = self.argument_text.get(&id);
        match check_stored(stored.is_some()) {
            Err(e) => {
                return Err(e);
            },
            Ok(_) => {},
        }
        Ok(copy_of_bytes(stored.unwrap()))
    }

    /// Get all argument IDs for a given debate, in the order in which they
    /// were stored.
    pub fn get_debate_arguments(&self, debate_id: u64) -> (r: Vec<u64>)
        requires
            self.wf(),
        ensures
            r@ == self@.debate_arguments(debate_id),
    {
        let mut result: Vec<u64> = Vec::new();
        match self.debate_arguments.get(&debate_id) {
            Some(ids) => {
                let mut i: usize = 0;
                while i < ids.len()
                    invariant
                        i <= ids@.len(),
                        result@ == ids@.subrange(0, i as int),
                    decreases ids@.len() - i,
                {
                    result.push(ids[i]);
                    assert(result@ =~= ids@.subrange(0, i + 1));
                    i += 1;
                }
                assert(result@ =~= ids@);
            },
            None => {},
        }
        result
    }

    /// Who deployed the contract.
    pub fn owner(&self) -> (r: Address)
        ensures
            r == self@.owner,
    {
        self.owner
    }

    /// Trusted relayer address; the zero identity if none was set.
    pub fn relayer(&self) -> (r: Address)
        ensures
            r == self@.relayer,
    {
        self.relayer
    }

    /// Price of a tier; zero if none was set or the tier does not exist.
    pub fn tier_pricing(&self, tier: u8) -> (r: Amount)
        requires
            self.wf(),
        ensures
            r@ == self@.price(tier),
    {
        if tier >= 1 && tier <= MAX_TIER {
            self.tier_pricing[(tier - 1) as usize].clone()
        } else {
            Amount::zero()
        }
    }

    /// Metadata of a stored argument, or `None` if the identifier holds no
    /// argument.
    pub fn argument_metadata(&self, id: u64) -> (r: Option<ArgumentMetadata>)
        requires
            self.wf(),
        ensures
            r == if self@.metadata.contains_key(id) {
                Some(self@.metadata[id])
            } else {
                None
            },
    {
        match self.argument_metadata.get(&id) {
            Some(metadata) => Some(*metadata),
            None => None,
        }
    }

    /// Set the relayer address. Only the contract owner can call this.
    pub fn set_relayer(&mut self, caller: &Address, address: Address) -> (r: Result<
        (),
        ContractError,
    >)
        requires
            old(self).wf(),
        ensures
            final(self).wf(),
            r == old(self)@.set_relayer_result(*caller),
            final(self)@ == old(self)@.set_relayer(*caller, address),
    {
        match ensure_owner(caller, &self.owner) {
            Err(e) => {
                return Err(e);
            },
            Ok(_) => {},
        }
        self.relayer = address;
        assert(self@ =~= old(self)@.set_relayer(*caller, address));
        Ok(())
    }

    /// Set the price for a subscription tier. Only the contract owner can
    /// call this.
    pub fn set_tier_pricing(&mut self, caller: &Address, tier: u8, price: Amount) -> (r: Result<
        (),
        ContractError,
    >)
        requires
            old(self).wf(),
        ensures
            final(self).wf(),
            r == old(self)@.set_tier_pricing_result(*caller, tier),
            final(self)@ == old(self)@.set_tier_pricing(*caller, tier, price@),
    {
        match admit_pricing(caller, &self.owner, tier) {
            Err(e) => {
                return Err(e);
            },
            Ok(_) => {},
        }
        self.tier_pricing[(tier - 1) as usize] = price;
        assert(self@.prices =~= old(self)@.prices.update(tier - 1, price@));
        assert(self@ =~= old(self)@.set_tier_pricing(*caller, tier, price@));
        Ok(())
    }
}

/// A copy of `bytes`.
fn copy_of_bytes(bytes: &Vec<u8>) -> (r: Vec<u8>)
    ensures
        r@ == bytes@,
{
    let mut result: Vec<u8> = Vec::new();
    let mut i: usize = 0;
    while i < bytes.len()
        invariant
            i <= bytes@.len(),
            result@ == bytes@.subrange(0, i as int),
        decreases bytes@.len() - i,
    {
        result.push(bytes[i]);
        assert(result@ =~= bytes@.subrange(0, i + 1));
        i += 1;
    }
    assert(result@ =~= bytes@);
    result
}

} // verus!
