//! Argument metadata and the rules for admitting an argument.

use vstd::prelude::*;
use crate::access::ensure_relayer;
use crate::address::Address;
use crate::error::ContractError;

verus! {

/// The highest argument type: 0 is pro, 1 is con, 2 is thesis.
pub const MAX_ARGUMENT_TYPE: u8 = 2;

/// The highest quality score. A score is a fraction of one in ten-thousandths.
pub const MAX_QUALITY_SCORE: u32 = 10_000;

/// What is recorded of an argument beside its text.
#[derive(Clone, Copy, Debug, PartialEq, Eq)]
pub struct ArgumentMetadata {
    /// Debate this argument belongs to.
    pub debate_id: u64,
    /// 0 = PRO, 1 = CON, 2 = THESIS
    pub argument_type: u8,
    /// Quality score as integer 0-10000.
    pub quality_score: u32,
    /// Author's identity; the zero identity if none is linked.
    pub author: Address,
    /// Ledger time when stored.
    pub timestamp: u64,
}

impl ArgumentMetadata {
    /// The metadata recorded for an argument admitted at time `now`. The
    /// author is left unlinked.
    pub open spec fn spec_fresh(
        debate_id: u64,
        argument_type: u8,
        quality_score: u32,
        now: u64,
    ) -> ArgumentMetadata {
        ArgumentMetadata {
            debate_id,
            argument_type,
            quality_score,
            author: Address::spec_zero(),
            timestamp: now,
        }
    }

    /// Metadata that an admitted argument can have: type and score in range,
    /// no author linked.
    pub open spec fn valid(self) -> bool {
        &&& self.argument_type <= MAX_ARGUMENT_TYPE
        &&& self.quality_score <= MAX_QUALITY_SCORE
        &&& self.author == Address::spec_zero()
    }
}

/// Why an argument is refused, or `None` if it is admitted. The caller is
/// looked at first, then the type, the score, the text, and last whether the
/// identifier is taken.
pub open spec fn argument_refusal(
    caller: Address,
    relayer: Address,
    argument_type: u8,
    quality_score: u32,
    text: Seq<u8>,
    id_taken: bool,
) -> Option<ContractError> {
    if caller != relayer {
        Some(ContractError::NotRelayer)
    } else if argument_type > MAX_ARGUMENT_TYPE {
        Some(ContractError::InvalidArgumentType)
    } else if quality_score > MAX_QUALITY_SCORE {
        Some(ContractError::InvalidQualityScore)
    } else if text.len() == 0 {
        Some(ContractError::EmptyText)
    } else if id_taken {
        Some(ContractError::ArgumentIdExists)
    } else {
        None
    }
}

/// Decides whether `caller` may store `text` at time `now` under an
/// identifier that is taken or not, as `id_taken` says. An admitted argument
/// yields the metadata to record with it.
pub fn admit_argument(
    caller: &Address,
    relayer: &Address,
    debate_id: u64,
    argument_type: u8,
    quality_score: u32,
    text: &[u8],
    id_taken: bool,
    now: u64,
) -> (r: Result<ArgumentMetadata, ContractError>)
    ensures
        match argument_refusal(*caller, *relayer, argument_type, quality_score, text@, id_taken) {
            Some(e) => r == Err::<ArgumentMetadata, ContractError>(e),
            None => r == Ok::<ArgumentMetadata, ContractError>(
                ArgumentMetadata::spec_fresh(debate_id, argument_type, quality_score, now),
            ),
        },
{
    match ensure_relayer(caller, relayer) {
        Err(e) => {
            return Err(e);
        },
        Ok(_) => {},
    }
    if argument_type > MAX_ARGUMENT_TYPE {
        return Err(ContractError::InvalidArgumentType);
    }
    if quality_score > MAX_QUALITY_SCORE {
        return Err(ContractError::InvalidQualityScore);
    }
    if text.len() == 0 {
        return Err(ContractError::EmptyText);
    }
    if id_taken {
        return Err(ContractError::ArgumentIdExists);
    }
    Ok(
        ArgumentMetadata {
            debate_id,
            argument_type,
            quality_score,
            author: Address::zero(),
            timestamp: now,
        },
    )
}

/// Decides a read: the identifier must hold a text.
pub fn check_stored(has_text: bool) -> (r: Result<(), ContractError>)
    ensures
        has_text ==> r is Ok,
        !has_text ==> r == Err::<(), ContractError>(ContractError::ArgumentNotFound),
{
    if has_text {
        Ok(())
    } else {
        Err(ContractError::ArgumentNotFound)
    }
}

} // verus!
