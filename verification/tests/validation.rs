use dropy::address::{derive_campaign_address, derive_vault_address};
use dropy::processor::{
    claim_reward, close_campaign, deposit_rewards, initialize_campaign, Account,
};
use dropy::{process_instruction, CampaignState, DropyError, DropyInstruction};

const PROGRAM_ID: [u8; 32] = [77u8; 32];
const OWNER_KEY: [u8; 32] = [1u8; 32];
const MINT_KEY: [u8; 32] = [2u8; 32];
const RECIPIENT_KEY: [u8; 32] = [3u8; 32];
const OTHER_KEY: [u8; 32] = [4u8; 32];

fn make_account(key: [u8; 32], owner: [u8; 32], is_signer: bool) -> Account {
    Account { key, owner, is_signer }
}

/// Initializes campaign `campaign_id` and deposits `amount` into it,
/// returning the record account and its storage buffer.
fn funded_campaign(campaign_id: u64, amount: u64) -> (Account, Vec<u8>) {
    let campaign_pda = derive_campaign_address(campaign_id, &PROGRAM_ID).unwrap();
    let vault_pda = derive_vault_address(campaign_id, &PROGRAM_ID).unwrap();
    let owner = make_account(OWNER_KEY, PROGRAM_ID, true);
    let campaign_state = make_account(campaign_pda, PROGRAM_ID, false);
    let token_mint = make_account(MINT_KEY, PROGRAM_ID, false);
    let vault = make_account(vault_pda, PROGRAM_ID, false);
    let mut record_data = vec![0u8; CampaignState::size()];
    initialize_campaign(
        &PROGRAM_ID,
        &[owner, campaign_state, token_mint, vault],
        &mut record_data,
        campaign_id,
    )
    .unwrap();
    if amount > 0 {
        deposit_rewards(&PROGRAM_ID, &[owner, campaign_state], &mut record_data, campaign_id, amount)
            .unwrap();
    }
    (campaign_state, record_data)
}

#[test]
fn derived_addresses_match_external_derivation() {
    let campaign_id = 42u64;
    let program_id = solana_program::pubkey::Pubkey::new_from_array(PROGRAM_ID);
    let (expected_campaign, _) = solana_program::pubkey::Pubkey::find_program_address(
        &[b"campaign", &campaign_id.to_le_bytes()],
        &program_id,
    );
    let (expected_vault, _) = solana_program::pubkey::Pubkey::find_program_address(
        &[b"vault", &campaign_id.to_le_bytes()],
        &program_id,
    );
    assert_eq!(
        derive_campaign_address(campaign_id, &PROGRAM_ID).unwrap(),
        expected_campaign.to_bytes(),
    );
    assert_eq!(derive_vault_address(campaign_id, &PROGRAM_ID).unwrap(), expected_vault.to_bytes());
    // The two namespaces derive different addresses.
    assert_ne!(expected_campaign, expected_vault);
}

#[test]
fn initialize_rejects_wrong_addresses() {
    let campaign_id = 8u64;
    let campaign_pda = derive_campaign_address(campaign_id, &PROGRAM_ID).unwrap();
    let vault_pda = derive_vault_address(campaign_id, &PROGRAM_ID).unwrap();
    let owner = make_account(OWNER_KEY, PROGRAM_ID, true);
    let token_mint = make_account(MINT_KEY, PROGRAM_ID, false);
    let mut record_data = vec![0u8; CampaignState::size()];

    // An attacker-controlled record address in place of the derivation.
    let wrong_record = make_account(OTHER_KEY, PROGRAM_ID, false);
    let vault = make_account(vault_pda, PROGRAM_ID, false);
    assert_eq!(
        initialize_campaign(
            &PROGRAM_ID,
            &[owner, wrong_record, token_mint, vault],
            &mut record_data,
            campaign_id,
        ),
        Err(DropyError::AddressMismatch),
    );

    // A wrong vault address.
    let record = make_account(campaign_pda, PROGRAM_ID, false);
    let wrong_vault = make_account(OTHER_KEY, PROGRAM_ID, false);
    assert_eq!(
        initialize_campaign(
            &PROGRAM_ID,
            &[owner, record, token_mint, wrong_vault],
            &mut record_data,
            campaign_id,
        ),
        Err(DropyError::AddressMismatch),
    );
    // Nothing was written.
    assert!(record_data.iter().all(|b| *b == 0));
}

#[test]
fn initialize_rejects_missing_signature_foreign_record_and_small_buffer() {
    let campaign_id = 5u64;
    let campaign_pda = derive_campaign_address(campaign_id, &PROGRAM_ID).unwrap();
    let vault_pda = derive_vault_address(campaign_id, &PROGRAM_ID).unwrap();
    let token_mint = make_account(MINT_KEY, PROGRAM_ID, false);
    let record = make_account(campaign_pda, PROGRAM_ID, false);
    let vault = make_account(vault_pda, PROGRAM_ID, false);
    let mut record_data = vec![0u8; CampaignState::size()];

    let unsigned_owner = make_account(OWNER_KEY, PROGRAM_ID, false);
    assert_eq!(
        initialize_campaign(
            &PROGRAM_ID,
            &[unsigned_owner, record, token_mint, vault],
            &mut record_data,
            campaign_id,
        ),
        Err(DropyError::Unauthorized),
    );

    let owner = make_account(OWNER_KEY, PROGRAM_ID, true);
    let foreign_record = make_account(campaign_pda, OTHER_KEY, false);
    assert_eq!(
        initialize_campaign(
            &PROGRAM_ID,
            &[owner, foreign_record, token_mint, vault],
            &mut record_data,
            campaign_id,
        ),
        Err(DropyError::WrongOwnerOfRecord),
    );

    let mut short_data = vec![0u8; CampaignState::size() - 1];
    assert_eq!(
        initialize_campaign(
            &PROGRAM_ID,
            &[owner, record, token_mint, vault],
            &mut short_data,
            campaign_id,
        ),
        Err(DropyError::BufferTooSmall),
    );
}

#[test]
fn zero_amounts_are_rejected_before_the_record_is_read() {
    // The record buffer holds garbage no record could be parsed from, yet the
    // zero amount is rejected first and the buffer is untouched.
    let signer = make_account(OWNER_KEY, PROGRAM_ID, true);
    let record = make_account(OTHER_KEY, PROGRAM_ID, false);
    let recipient = make_account(RECIPIENT_KEY, PROGRAM_ID, false);
    let mut garbage = vec![0xFFu8; 3];
    let before = garbage.clone();
    assert_eq!(
        claim_reward(&PROGRAM_ID, &[signer, record, recipient], &mut garbage, 1, 0, 1),
        Err(DropyError::InvalidAmount),
    );
    assert_eq!(
        deposit_rewards(&PROGRAM_ID, &[signer, record], &mut garbage, 1, 0),
        Err(DropyError::InvalidAmount),
    );
    assert_eq!(garbage, before);
}

#[test]
fn deposit_by_non_owner_is_rejected() {
    let campaign_id = 30u64;
    let (record, mut record_data) = funded_campaign(campaign_id, 100);
    let intruder = make_account(OTHER_KEY, PROGRAM_ID, true);
    assert_eq!(
        deposit_rewards(&PROGRAM_ID, &[intruder, record], &mut record_data, campaign_id, 50),
        Err(DropyError::NotOwner),
    );
}

#[test]
fn deposit_overflow_is_rejected() {
    let campaign_id = 31u64;
    let (record, mut record_data) = funded_campaign(campaign_id, u64::MAX);
    let owner = make_account(OWNER_KEY, PROGRAM_ID, true);
    let before = record_data.clone();
    assert_eq!(
        deposit_rewards(&PROGRAM_ID, &[owner, record], &mut record_data, campaign_id, 1),
        Err(DropyError::ArithmeticOverflow),
    );
    assert_eq!(record_data, before);
}

#[test]
fn claim_exceeding_remaining_balance_is_rejected() {
    let campaign_id = 32u64;
    let (record, mut record_data) = funded_campaign(campaign_id, 100);
    let owner = make_account(OWNER_KEY, PROGRAM_ID, true);
    let recipient = make_account(RECIPIENT_KEY, PROGRAM_ID, false);
    claim_reward(&PROGRAM_ID, &[owner, record, recipient], &mut record_data, campaign_id, 60, 1)
        .unwrap();
    assert_eq!(
        claim_reward(&PROGRAM_ID, &[owner, record, recipient], &mut record_data, campaign_id, 41, 2),
        Err(DropyError::InsufficientRemainingBalance),
    );
}

#[test]
fn claim_by_non_owner_signer_succeeds() {
    // A claim is authorized by any signer, not specifically the record's
    // owner: a non-owner signer presenting a fresh nonce and a within-balance
    // amount triggers the payout.
    let campaign_id = 33u64;
    let (record, mut record_data) = funded_campaign(campaign_id, 100);
    let relayer = make_account(OTHER_KEY, PROGRAM_ID, true);
    let recipient = make_account(RECIPIENT_KEY, PROGRAM_ID, false);
    assert!(claim_reward(
        &PROGRAM_ID,
        &[relayer, record, recipient],
        &mut record_data,
        campaign_id,
        10,
        1,
    )
    .is_ok());
}

#[test]
fn closed_campaign_rejects_deposits_and_claims() {
    let campaign_id = 34u64;
    let (record, mut record_data) = funded_campaign(campaign_id, 100);
    let owner = make_account(OWNER_KEY, PROGRAM_ID, true);
    let recipient = make_account(RECIPIENT_KEY, PROGRAM_ID, false);
    claim_reward(&PROGRAM_ID, &[owner, record, recipient], &mut record_data, campaign_id, 100, 1)
        .unwrap();
    close_campaign(&PROGRAM_ID, &[owner, record], &mut record_data, campaign_id).unwrap();
    assert_eq!(
        deposit_rewards(&PROGRAM_ID, &[owner, record], &mut record_data, campaign_id, 1),
        Err(DropyError::CampaignClosed),
    );
    assert_eq!(
        claim_reward(&PROGRAM_ID, &[owner, record, recipient], &mut record_data, campaign_id, 1, 2),
        Err(DropyError::CampaignClosed),
    );
}

#[test]
fn accounting_bound_and_identities_hold_across_operations() {
    let campaign_id = 36u64;
    let (record, mut record_data) = funded_campaign(campaign_id, 1_000);
    let owner = make_account(OWNER_KEY, PROGRAM_ID, true);
    let recipient = make_account(RECIPIENT_KEY, PROGRAM_ID, false);
    let initial = dropy::state::load_state(&record_data).unwrap();
    assert!(initial.total_claimed <= initial.total_deposited);

    claim_reward(&PROGRAM_ID, &[owner, record, recipient], &mut record_data, campaign_id, 999, 1)
        .unwrap();
    let after_claim = dropy::state::load_state(&record_data).unwrap();
    assert!(after_claim.total_claimed <= after_claim.total_deposited);

    deposit_rewards(&PROGRAM_ID, &[owner, record], &mut record_data, campaign_id, 7).unwrap();
    let after_deposit = dropy::state::load_state(&record_data).unwrap();
    assert!(after_deposit.total_claimed <= after_deposit.total_deposited);

    // No operation touched the identity fields.
    for state in [&after_claim, &after_deposit] {
        assert_eq!(state.campaign_id, initial.campaign_id);
        assert_eq!(state.owner, initial.owner);
        assert_eq!(state.token_mint, initial.token_mint);
        assert_eq!(state.vault, initial.vault);
    }
}

#[test]
fn record_id_mismatch_is_rejected() {
    let campaign_id = 35u64;
    let (record, mut record_data) = funded_campaign(campaign_id, 100);
    let owner = make_account(OWNER_KEY, PROGRAM_ID, true);
    assert_eq!(
        deposit_rewards(&PROGRAM_ID, &[owner, record], &mut record_data, campaign_id + 1, 10),
        Err(DropyError::RecordIdMismatch),
    );
}

#[test]
fn corrupt_record_is_rejected() {
    let owner = make_account(OWNER_KEY, PROGRAM_ID, true);
    let record = make_account(OTHER_KEY, PROGRAM_ID, false);
    let mut garbage = vec![0xFFu8; 10];
    assert_eq!(
        deposit_rewards(&PROGRAM_ID, &[owner, record], &mut garbage, 1, 10),
        Err(DropyError::CorruptRecord),
    );
}

#[test]
fn missing_accounts_are_rejected() {
    let owner = make_account(OWNER_KEY, PROGRAM_ID, true);
    let record = make_account(OTHER_KEY, PROGRAM_ID, false);
    let mut record_data = vec![0u8; CampaignState::size()];
    let init_ix = DropyInstruction::InitializeCampaign { campaign_id: 1 }.encode();
    assert_eq!(
        process_instruction(&PROGRAM_ID, &[owner, record], &mut record_data, &init_ix),
        Err(DropyError::MissingAccount),
    );
    let claim_ix = DropyInstruction::ClaimReward { campaign_id: 1, amount: 1, nonce: 1 }.encode();
    assert_eq!(
        process_instruction(&PROGRAM_ID, &[owner, record], &mut record_data, &claim_ix),
        Err(DropyError::MissingAccount),
    );
}
