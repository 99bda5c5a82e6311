use vstd::prelude::*;
use vstd::bytes::{spec_u64_from_le_bytes, spec_u64_to_le_bytes, u64_from_le_bytes, u64_to_le_bytes};
use vstd::slice::slice_subrange;
use crate::errors::DropyError;

verus! {

/// One decoded request: a tagged union of the four operations, carried on the
/// wire as a one-byte tag followed by little-endian 64-bit fields.
#[derive(Debug, Clone, Copy, PartialEq, Eq, Structural)]
pub enum DropyInstruction {
    InitializeCampaign { campaign_id: u64 },
    DepositRewards { campaign_id: u64, amount: u64 },
    ClaimReward { campaign_id: u64, amount: u64, nonce: u64 },
    CloseCampaign { campaign_id: u64 },
}

/// The wire bytes of one request: tag 0 through 3, then each 64-bit field in
/// little-endian order.
pub open spec fn spec_encode_instruction(i: DropyInstruction) -> Seq<u8> {
    match i {
        DropyInstruction::InitializeCampaign { campaign_id } => seq![0u8] + spec_u64_to_le_bytes(
            campaign_id,
        ),
        DropyInstruction::DepositRewards { campaign_id, amount } => seq![1u8]
            + spec_u64_to_le_bytes(campaign_id) + spec_u64_to_le_bytes(amount),
        DropyInstruction::ClaimReward { campaign_id, amount, nonce } => seq![2u8]
            + spec_u64_to_le_bytes(campaign_id) + spec_u64_to_le_bytes(amount)
            + spec_u64_to_le_bytes(nonce),
        DropyInstruction::CloseCampaign { campaign_id } => seq![3u8] + spec_u64_to_le_bytes(
            campaign_id,
        ),
    }
}

/// Reads a request off the wire: `None` unless the tag is recognized and the
/// payload is exactly the length the variant's fields ask for.
pub open spec fn spec_decode_instruction(input: Seq<u8>) -> Option<DropyInstruction> {
    if input.len() == 0 {
        None
    } else if input[0] == 0 && input.len() == 9 {
        Some(
            DropyInstruction::InitializeCampaign {
                campaign_id: spec_u64_from_le_bytes(input.subrange(1, 9)),
            },
        )
    } else if input[0] == 1 && input.len() == 17 {
        Some(
            DropyInstruction::DepositRewards {
                campaign_id: spec_u64_from_le_bytes(input.subrange(1, 9)),
                amount: spec_u64_from_le_bytes(input.subrange(9, 17)),
            },
        )
    } else if input[0] == 2 && input.len() == 25 {
        Some(
            DropyInstruction::ClaimReward {
                campaign_id: spec_u64_from_le_bytes(input.subrange(1, 9)),
                amount: spec_u64_from_le_bytes(input.subrange(9, 17)),
                nonce: spec_u64_from_le_bytes(input.subrange(17, 25)),
            },
        )
    } else if input[0] == 3 && input.len() == 9 {
        Some(
            DropyInstruction::CloseCampaign {
                campaign_id: spec_u64_from_le_bytes(input.subrange(1, 9)),
            },
        )
    } else {
        None
    }
}

impl DropyInstruction {
    /// Serializes this request into its wire bytes.
    pub fn encode(&self) -> (r: Vec<u8>)
        ensures
            r@ == spec_encode_instruction(*self),
    {
        let mut out: Vec<u8> = Vec::new();
        match *self {
            DropyInstruction::InitializeCampaign { campaign_id } => {
                out.push(0u8);
                let mut id_bytes = u64_to_le_bytes(campaign_id);
                out.append(&mut id_bytes);
            },
            DropyInstruction::DepositRewards { campaign_id, amount } => {
                out.push(1u8);
                let mut id_bytes = u64_to_le_bytes(campaign_id);
                out.append(&mut id_bytes);
                let mut amount_bytes = u64_to_le_bytes(amount);
                out.append(&mut amount_bytes);
            },
            DropyInstruction::ClaimReward { campaign_id, amount, nonce } => {
                out.push(2u8);
                let mut id_bytes = u64_to_le_bytes(campaign_id);
                out.append(&mut id_bytes);
                let mut amount_bytes = u64_to_le_bytes(amount);
                out.append(&mut amount_bytes);
                let mut nonce_bytes = u64_to_le_bytes(nonce);
                out.append(&mut nonce_bytes);
            },
            DropyInstruction::CloseCampaign { campaign_id } => {
                out.push(3u8);
                let mut id_bytes = u64_to_le_bytes(campaign_id);
                out.append(&mut id_bytes);
            },
        }
        proof {
            assert(out@ =~= spec_encode_instruction(*self));
        }
        out
    }
}

/// Parses a raw request payload, rejecting an unknown tag or a payload whose
/// length does not fit its variant.
pub fn decode_instruction(input: &[u8]) -> (r: Result<DropyInstruction, DropyError>)
    ensures
        match spec_decode_instruction(input@) {
            Some(i) => r == Ok::<DropyInstruction, DropyError>(i),
            None => r == Err::<DropyInstruction, DropyError>(DropyError::MalformedRequest),
        },
{
    if input.len() == 0 {
        return Err(DropyError::MalformedRequest);
    }
    let tag: u8 = input[0];
    if tag == 0 && input.len() == 9 {
        Ok(
            DropyInstruction::InitializeCampaign {
                campaign_id: u64_from_le_bytes(slice_subrange(input, 1, 9)),
            },
        )
    } else if tag == 1 && input.len() == 17 {
        Ok(
            DropyInstruction::DepositRewards {
                campaign_id: u64_from_le_bytes(slice_subrange(input, 1, 9)),
                amount: u64_from_le_bytes(slice_subrange(input, 9, 17)),
            },
        )
    } else if tag == 2 && input.len() == 25 {
        Ok(
            DropyInstruction::ClaimReward {
                campaign_id: u64_from_le_bytes(slice_subrange(input, 1, 9)),
                amount: u64_from_le_bytes(slice_subrange(input, 9, 17)),
                nonce: u64_from_le_bytes(slice_subrange(input, 17, 25)),
            },
        )
    } else if tag == 3 && input.len() == 9 {
        Ok(
            DropyInstruction::CloseCampaign {
                campaign_id: u64_from_le_bytes(slice_subrange(input, 1, 9)),
            },
        )
    } else {
        Err(DropyError::MalformedRequest)
    }
}

/// A request serialized with `spec_encode_instruction` always decodes back to
/// itself: the wire format is lossless.
pub proof fn lemma_instruction_round_trip(i: DropyInstruction)
    ensures
        spec_decode_instruction(spec_encode_instruction(i)) == Some(i),
{
    vstd::bytes::lemma_auto_spec_u64_to_from_le_bytes();
    let e = spec_encode_instruction(i);
    match i {
        DropyInstruction::InitializeCampaign { campaign_id } => {
            assert(e.subrange(1, 9) =~= spec_u64_to_le_bytes(campaign_id));
        },
        DropyInstruction::DepositRewards { campaign_id, amount } => {
            assert(e.subrange(1, 9) =~= spec_u64_to_le_bytes(campaign_id));
            assert(e.subrange(9, 17) =~= spec_u64_to_le_bytes(amount));
        },
        DropyInstruction::ClaimReward { campaign_id, amount, nonce } => {
            assert(e.subrange(1, 9) =~= spec_u64_to_le_bytes(campaign_id));
            assert(e.subrange(9, 17) =~= spec_u64_to_le_bytes(amount));
            assert(e.subrange(17, 25) =~= spec_u64_to_le_bytes(nonce));
        },
        DropyInstruction::CloseCampaign { campaign_id } => {
            assert(e.subrange(1, 9) =~= spec_u64_to_le_bytes(campaign_id));
        },
    }
}

} // verus!
