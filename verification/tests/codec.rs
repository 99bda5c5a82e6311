use dropy::instruction::decode_instruction;
use dropy::state::{load_state, store_state};
use dropy::{CampaignState, DropyError, DropyInstruction};

#[test]
fn record_codec_round_trips() {
    let state = CampaignState {
        campaign_id: 42,
        owner: [1u8; 32],
        token_mint: [2u8; 32],
        vault: [3u8; 32],
        total_deposited: 1_000_000,
        total_claimed: 400_000,
        last_nonce: 7,
        is_closed: false,
    };
    let mut buffer = vec![0xAA_u8; CampaignState::size() + 10];
    store_state(&state, &mut buffer).unwrap();
    // The bytes past the record are left exactly as they were.
    assert!(buffer[CampaignState::size()..].iter().all(|b| *b == 0xAA));
    let reloaded = load_state(&buffer).unwrap();
    assert_eq!(reloaded, state);
}

#[test]
fn record_codec_matches_field_by_field_layout() {
    // The record layout is the concatenation of the fields' own encodings,
    // which is also how a reflective field-by-field serializer writes them.
    let state = CampaignState {
        campaign_id: 0x0102030405060708,
        owner: [21u8; 32],
        token_mint: [22u8; 32],
        vault: [23u8; 32],
        total_deposited: 500,
        total_claimed: 99,
        last_nonce: 3,
        is_closed: true,
    };
    let mut buffer = vec![0u8; CampaignState::size()];
    store_state(&state, &mut buffer).unwrap();
    let expected = borsh::to_vec(&(
        state.campaign_id,
        state.owner,
        state.token_mint,
        state.vault,
        state.total_deposited,
        state.total_claimed,
        state.last_nonce,
        state.is_closed,
    ))
    .unwrap();
    assert_eq!(buffer, expected);
}

#[test]
fn record_decode_rejects_short_or_invalid_buffers() {
    assert_eq!(load_state(&[]), Err(DropyError::CorruptRecord));
    assert_eq!(load_state(&vec![0u8; CampaignState::size() - 1]), Err(DropyError::CorruptRecord));
    // A boolean byte other than 0 or 1 is structurally invalid.
    let mut buffer = vec![0u8; CampaignState::size()];
    buffer[CampaignState::size() - 1] = 2;
    assert_eq!(load_state(&buffer), Err(DropyError::CorruptRecord));
}

#[test]
fn store_rejects_short_buffers() {
    let state = CampaignState {
        campaign_id: 1,
        owner: [0u8; 32],
        token_mint: [0u8; 32],
        vault: [0u8; 32],
        total_deposited: 0,
        total_claimed: 0,
        last_nonce: 0,
        is_closed: false,
    };
    let mut buffer = vec![0u8; CampaignState::size() - 1];
    assert_eq!(store_state(&state, &mut buffer), Err(DropyError::BufferTooSmall));
}

#[test]
fn instruction_encoding_matches_tagged_little_endian_layout() {
    // Tag byte then little-endian fields, exactly as a tagged-union
    // serializer writes the four variants.
    assert_eq!(
        DropyInstruction::InitializeCampaign { campaign_id: 42 }.encode(),
        borsh::to_vec(&(0u8, 42u64)).unwrap(),
    );
    assert_eq!(
        DropyInstruction::DepositRewards { campaign_id: 42, amount: 1_000_000 }.encode(),
        borsh::to_vec(&(1u8, 42u64, 1_000_000u64)).unwrap(),
    );
    assert_eq!(
        DropyInstruction::ClaimReward { campaign_id: 42, amount: 400_000, nonce: 1 }.encode(),
        borsh::to_vec(&(2u8, 42u64, 400_000u64, 1u64)).unwrap(),
    );
    assert_eq!(
        DropyInstruction::CloseCampaign { campaign_id: 42 }.encode(),
        borsh::to_vec(&(3u8, 42u64)).unwrap(),
    );
}

#[test]
fn instruction_codec_round_trips() {
    let requests = [
        DropyInstruction::InitializeCampaign { campaign_id: 9 },
        DropyInstruction::DepositRewards { campaign_id: 9, amount: 100 },
        DropyInstruction::ClaimReward { campaign_id: 9, amount: 10, nonce: 5 },
        DropyInstruction::CloseCampaign { campaign_id: 9 },
    ];
    for request in requests {
        assert_eq!(decode_instruction(&request.encode()), Ok(request));
    }
}

#[test]
fn malformed_requests_are_rejected() {
    // Empty payload.
    assert_eq!(decode_instruction(&[]), Err(DropyError::MalformedRequest));
    // Unknown tag.
    assert_eq!(decode_instruction(&[9u8, 0, 0, 0, 0, 0, 0, 0, 0]), Err(DropyError::MalformedRequest));
    // Truncated fields.
    assert_eq!(decode_instruction(&[0u8, 42]), Err(DropyError::MalformedRequest));
    let mut truncated = DropyInstruction::ClaimReward { campaign_id: 1, amount: 2, nonce: 3 }.encode();
    truncated.pop();
    assert_eq!(decode_instruction(&truncated), Err(DropyError::MalformedRequest));
    // Trailing bytes beyond the variant's fields.
    let mut padded = DropyInstruction::CloseCampaign { campaign_id: 1 }.encode();
    padded.push(0);
    assert_eq!(decode_instruction(&padded), Err(DropyError::MalformedRequest));
}
