//! The ways in which a call can fail.

use vstd::prelude::*;

verus! {

/// The status under which the ledger reports a failure raised by a contract.
pub const USER_ERROR_STATUS: u64 = 4;

/// Why a call was refused. A refused call changes nothing.
#[derive(Clone, Copy, Debug, PartialEq, Eq, Structural)]
pub enum ContractError {
    /// The tier is not one of 1, 2, 3.
    InvalidTier,
    /// The tier has no price, or a price of zero.
    PricingNotSet,
    /// The payment is not exactly the price of the tier.
    IncorrectPayment,
    /// The caller has no subscription record to cancel.
    NoActiveSubscription,
    /// The caller is not the relayer.
    NotRelayer,
    /// The argument type is not one of 0, 1, 2.
    InvalidArgumentType,
    /// The quality score is above 10000.
    InvalidQualityScore,
    /// The argument text is empty.
    EmptyText,
    /// The argument identifier already holds a text.
    ArgumentIdExists,
    /// The argument identifier holds no text.
    ArgumentNotFound,
    /// The caller is not the owner.
    NotOwner,
}

impl ContractError {
    /// The text of the failure message.
    pub open spec fn message_text(self) -> Seq<char> {
        match self {
            ContractError::InvalidTier => "Invalid tier (1-3)"@,
            ContractError::PricingNotSet => "Tier pricing not set"@,
            ContractError::IncorrectPayment => "Incorrect payment amount"@,
            ContractError::NoActiveSubscription => "No active subscription"@,
            ContractError::NotRelayer => "Only relayer can store arguments"@,
            ContractError::InvalidArgumentType => "Invalid argument type (0-2)"@,
            ContractError::InvalidQualityScore => "Quality score must be 0-10000"@,
            ContractError::EmptyText => "Text cannot be empty"@,
            ContractError::ArgumentIdExists => "Argument ID already exists"@,
            ContractError::ArgumentNotFound => "Argument not found"@,
            ContractError::NotOwner => "Endpoint can only be called by owner"@,
        }
    }

    /// The message that the caller sees.
    pub fn message(&self) -> (r: &'static str)
        ensures
            r@ == self.message_text(),
    {
        match self {
            ContractError::InvalidTier => "Invalid tier (1-3)",
            ContractError::PricingNotSet => "Tier pricing not set",
            ContractError::IncorrectPayment => "Incorrect payment amount",
            ContractError::NoActiveSubscription => "No active subscription",
            ContractError::NotRelayer => "Only relayer can store arguments",
            ContractError::InvalidArgumentType => "Invalid argument type (0-2)",
            ContractError::InvalidQualityScore => "Quality score must be 0-10000",
            ContractError::EmptyText => "Text cannot be empty",
            ContractError::ArgumentIdExists => "Argument ID already exists",
            ContractError::ArgumentNotFound => "Argument not found",
            ContractError::NotOwner => "Endpoint can only be called by owner",
        }
    }

    /// The status that the ledger reports with the message: every failure
    /// of this contract is a user error.
    pub fn status(&self) -> (r: u64)
        ensures
            r == USER_ERROR_STATUS,
    {
        USER_ERROR_STATUS
    }

    /// No two failures share a message.
    pub proof fn lemma_messages_distinct(a: ContractError, b: ContractError)
        requires
            a != b,
        ensures
            a.message_text() != b.message_text(),
    {
        reveal_strlit("Invalid tier (1-3)");
        reveal_strlit("Tier pricing not set");
        reveal_strlit("Incorrect payment amount");
        reveal_strlit("No active subscription");
        reveal_strlit("Only relayer can store arguments");
        reveal_strlit("Invalid argument type (0-2)");
        reveal_strlit("Quality score must be 0-10000");
        reveal_strlit("Text cannot be empty");
        reveal_strlit("Argument ID already exists");
        reveal_strlit("Argument not found");
        reveal_strlit("Endpoint can only be called by owner");
        assert("Invalid tier (1-3)"@.len() == 18);
        assert("Tier pricing not set"@.len() == 20);
        assert("Incorrect payment amount"@.len() == 24);
        assert("No active subscription"@.len() == 22);
        assert("Only relayer can store arguments"@.len() == 32);
        assert("Invalid argument type (0-2)"@.len() == 27);
        assert("Quality score must be 0-10000"@.len() == 29);
        assert("Text cannot be empty"@.len() == 20);
        assert("Argument ID already exists"@.len() == 26);
        assert("Argument not found"@.len() == 18);
        assert("Endpoint can only be called by owner"@.len() == 36);
        assert("Invalid tier (1-3)"@[0] == 'I' && "Argument not found"@[0] == 'A');
        assert("Tier pricing not set"@[1] == 'i' && "Text cannot be empty"@[1] == 'e');
    }
}

} // verus!
