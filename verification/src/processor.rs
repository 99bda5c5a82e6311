use vstd::prelude::*;
use crate::address::{campaign_tag, derive_campaign_address, derive_vault_address, key_eq, pda_of, vault_tag};
use crate::errors::DropyError;
use crate::instruction::{decode_instruction, spec_decode_instruction, DropyInstruction};
use crate::state::{load_state, spec_decode_state, spec_encode_state, store_state, CampaignState, RecordModel, RECORD_SIZE};

verus! {

/// What the engine sees of one account in a request's account list: its
/// address, the program that controls it, and whether it signed the request.
#[derive(Debug, Clone, Copy)]
pub struct Account {
    pub key: [u8; 32],
    pub owner: [u8; 32],
    pub is_signer: bool,
}

/// The outcome of initialization: the fresh record, or the first failing
/// check in order — signature, record control, buffer size, record address,
/// vault address. Accounts: [initiating signer, record, value kind, vault].
pub open spec fn spec_initialize(
    program_id: Seq<u8>,
    accounts: Seq<Account>,
    data_len: nat,
    campaign_id: u64,
) -> Result<RecordModel, DropyError> {
    if accounts.len() < 4 {
        Err(DropyError::MissingAccount)
    } else if !accounts[0].is_signer {
        Err(DropyError::Unauthorized)
    } else if accounts[1].owner@ != program_id {
        Err(DropyError::WrongOwnerOfRecord)
    } else if data_len < RECORD_SIZE {
        Err(DropyError::BufferTooSmall)
    } else if pda_of(campaign_tag(), campaign_id, program_id) != Some(accounts[1].key@) {
        Err(DropyError::AddressMismatch)
    } else if pda_of(vault_tag(), campaign_id, program_id) != Some(accounts[3].key@) {
        Err(DropyError::AddressMismatch)
    } else {
        Ok(
            RecordModel {
                campaign_id,
                owner: accounts[0].key@,
                token_mint: accounts[2].key@,
                vault: accounts[3].key@,
                total_deposited: 0,
                total_claimed: 0,
                last_nonce: 0,
                is_closed: false,
            },
        )
    }
}

/// The outcome of a deposit: the record with `total_deposited` raised by
/// `amount`, or the first failing check in order. Only the record's owner may
/// deposit, the campaign must be open, and the sum must fit in 64 bits.
/// Accounts: [initiating signer, record].
pub open spec fn spec_deposit(
    program_id: Seq<u8>,
    accounts: Seq<Account>,
    data: Seq<u8>,
    campaign_id: u64,
    amount: u64,
) -> Result<RecordModel, DropyError> {
    if amount == 0 {
        Err(DropyError::InvalidAmount)
    } else if accounts.len() < 2 {
        Err(DropyError::MissingAccount)
    } else if !accounts[0].is_signer {
        Err(DropyError::Unauthorized)
    } else if accounts[1].owner@ != program_id {
        Err(DropyError::WrongOwnerOfRecord)
    } else {
        match spec_decode_state(data) {
            None => Err(DropyError::CorruptRecord),
            Some(s) => if s.campaign_id != campaign_id {
                Err(DropyError::RecordIdMismatch)
            } else if s.is_closed {
                Err(DropyError::CampaignClosed)
            } else if s.owner != accounts[0].key@ {
                Err(DropyError::NotOwner)
            } else if s.total_deposited + amount > u64::MAX {
                Err(DropyError::ArithmeticOverflow)
            } else {
                Ok(
                    RecordModel {
                        total_deposited: (s.total_deposited + amount) as u64,
                        ..s
                    },
                )
            },
        }
    }
}

/// The outcome of a claim: the record with `total_claimed` raised by `amount`
/// and the nonce watermark advanced, or the first failing check in order. Any
/// signer may claim; the nonce must strictly exceed the watermark and the
/// amount must not exceed the remaining balance.
/// Accounts: [initiating signer, record, recipient].
pub open spec fn spec_claim(
    program_id: Seq<u8>,
    accounts: Seq<Account>,
    data: Seq<u8>,
    campaign_id: u64,
    amount: u64,
    nonce: u64,
) -> Result<RecordModel, DropyError> {
    if amount == 0 {
        Err(DropyError::InvalidAmount)
    } else if accounts.len() < 3 {
        Err(DropyError::MissingAccount)
    } else if !accounts[0].is_signer {
        Err(DropyError::Unauthorized)
    } else if accounts[1].owner@ != program_id {
        Err(DropyError::WrongOwnerOfRecord)
    } else {
        match spec_decode_state(data) {
            None => Err(DropyError::CorruptRecord),
            Some(s) => if s.campaign_id != campaign_id {
                Err(DropyError::RecordIdMismatch)
            } else if s.is_closed {
                Err(DropyError::CampaignClosed)
            } else if nonce <= s.last_nonce {
                Err(DropyError::NonceNotIncreasing)
            } else if s.total_claimed > s.total_deposited {
                Err(DropyError::ArithmeticOverflow)
            } else if amount > s.total_deposited - s.total_claimed {
                Err(DropyError::InsufficientRemainingBalance)
            } else {
                Ok(
                    RecordModel {
                        total_claimed: (s.total_claimed + amount) as u64,
                        last_nonce: nonce,
                        ..s
                    },
                )
            },
        }
    }
}

/// The outcome of a close: the record latched closed, or the first failing
/// check in order. Only the record's owner may close, and only once every
/// deposited unit has been claimed. Accounts: [initiating signer, record].
pub open spec fn spec_close(
    program_id: Seq<u8>,
    accounts: Seq<Account>,
    data: Seq<u8>,
    campaign_id: u64,
) -> Result<RecordModel, DropyError> {
    if accounts.len() < 2 {
        Err(DropyError::MissingAccount)
    } else if !accounts[0].is_signer {
        Err(DropyError::Unauthorized)
    } else if accounts[1].owner@ != program_id {
        Err(DropyError::WrongOwnerOfRecord)
    } else {
        match spec_decode_state(data) {
            None => Err(DropyError::CorruptRecord),
            Some(s) => if s.campaign_id != campaign_id {
                Err(DropyError::RecordIdMismatch)
            } else if s.owner != accounts[0].key@ {
                Err(DropyError::NotOwner)
            } else if s.total_claimed < s.total_deposited {
                Err(DropyError::CampaignNotFullyClaimed)
            } else {
                Ok(RecordModel { is_closed: true, ..s })
            },
        }
    }
}

/// The outcome of a whole request: the payload decoded, then the decoded
/// operation's own outcome.
pub open spec fn spec_process(
    program_id: Seq<u8>,
    accounts: Seq<Account>,
    data: Seq<u8>,
    input: Seq<u8>,
) -> Result<RecordModel, DropyError> {
    match spec_decode_instruction(input) {
        None => Err(DropyError::MalformedRequest),
        Some(DropyInstruction::InitializeCampaign { campaign_id }) => spec_initialize(
            program_id,
            accounts,
            data.len(),
            campaign_id,
        ),
        Some(DropyInstruction::DepositRewards { campaign_id, amount }) => spec_deposit(
            program_id,
            accounts,
            data,
            campaign_id,
            amount,
        ),
        Some(DropyInstruction::ClaimReward { campaign_id, amount, nonce }) => spec_claim(
            program_id,
            accounts,
            data,
            campaign_id,
            amount,
            nonce,
        ),
        Some(DropyInstruction::CloseCampaign { campaign_id }) => spec_close(
            program_id,
            accounts,
            data,
            campaign_id,
        ),
    }
}

/// Creates the record of a new campaign in `record_data`, after checking the
/// signature, the record's controlling program, the buffer size and both
/// derived addresses. On failure the buffer is untouched.
pub fn initialize_campaign(
    program_id: &[u8; 32],
    accounts: &[Account],
    record_data: &mut Vec<u8>,
    campaign_id: u64,
) -> (r: Result<(), DropyError>)
    ensures
        match spec_initialize(program_id@, accounts@, old(record_data)@.len(), campaign_id) {
            Ok(m) => r is Ok && final(record_data)@ == spec_encode_state(m) + old(
                record_data,
            )@.skip(RECORD_SIZE as int),
            Err(e) => r == Err::<(), DropyError>(e) && final(record_data)@ == old(record_data)@,
        },
{
    if accounts.len() < 4 {
        return Err(DropyError::MissingAccount);
    }
    let signer = &accounts[0];
    let record = &accounts[1];
    let token_mint = &accounts[2];
    let vault = &accounts[3];
    if !signer.is_signer {
        return Err(DropyError::Unauthorized);
    }
    if !key_eq(&record.owner, program_id) {
        return Err(DropyError::WrongOwnerOfRecord);
    }
    if record_data.len() < RECORD_SIZE {
        return Err(DropyError::BufferTooSmall);
    }
    let expected_record = match derive_campaign_address(campaign_id, program_id) {
        Some(k) => k,
        None => {
            return Err(DropyError::AddressMismatch);
        },
    };
    if !key_eq(&record.key, &expected_record) {
        return Err(DropyError::AddressMismatch);
    }
    let expected_vault = match derive_vault_address(campaign_id, program_id) {
        Some(k) => k,
        None => {
            return Err(DropyError::AddressMismatch);
        },
    };
    if !key_eq(&vault.key, &expected_vault) {
        return Err(DropyError::AddressMismatch);
    }
    let state = CampaignState {
        campaign_id,
        owner: signer.key,
        token_mint: token_mint.key,
        vault: vault.key,
        total_deposited: 0,
        total_claimed: 0,
        last_nonce: 0,
        is_closed: false,
    };
    store_state(&state, record_data)
}

/// Adds `amount` to the campaign's deposited total. On failure the buffer is
/// untouched.
pub fn deposit_rewards(
    program_id: &[u8; 32],
    accounts: &[Account],
    record_data: &mut Vec<u8>,
    campaign_id: u64,
    amount: u64,
) -> (r: Result<(), DropyError>)
    ensures
        match spec_deposit(program_id@, accounts@, old(record_data)@, campaign_id, amount) {
            Ok(m) => r is Ok && final(record_data)@ == spec_encode_state(m) + old(
                record_data,
            )@.skip(RECORD_SIZE as int),
            Err(e) => r == Err::<(), DropyError>(e) && final(record_data)@ == old(record_data)@,
        },
{
    if amount == 0 {
        return Err(DropyError::InvalidAmount);
    }
    if accounts.len() < 2 {
        return Err(DropyError::MissingAccount);
    }
    let signer = &accounts[0];
    let record = &accounts[1];
    if !signer.is_signer {
        return Err(DropyError::Unauthorized);
    }
    if !key_eq(&record.owner, program_id) {
        return Err(DropyError::WrongOwnerOfRecord);
    }
    let mut state = match load_state(record_data.as_slice()) {
        Ok(s) => s,
        Err(e) => {
            return Err(e);
        },
    };
    if state.campaign_id != campaign_id {
        return Err(DropyError::RecordIdMismatch);
    }
    if state.is_closed {
        return Err(DropyError::CampaignClosed);
    }
    if !key_eq(&state.owner, &signer.key) {
        return Err(DropyError::NotOwner);
    }
    if amount > u64::MAX - state.total_deposited {
        return Err(DropyError::ArithmeticOverflow);
    }
    state.total_deposited = state.total_deposited + amount;
    store_state(&state, record_data)
}

/// Pays `amount` out of the campaign's remaining balance and advances the
/// nonce watermark to `nonce`. On failure the buffer is untouched.
pub fn claim_reward(
    program_id: &[u8; 32],
    accounts: &[Account],
    record_data: &mut Vec<u8>,
    campaign_id: u64,
    amount: u64,
    nonce: u64,
) -> (r: Result<(), DropyError>)
    ensures
        match spec_claim(program_id@, accounts@, old(record_data)@, campaign_id, amount, nonce) {
            Ok(m) => r is Ok && final(record_data)@ == spec_encode_state(m) + old(
                record_data,
            )@.skip(RECORD_SIZE as int),
            Err(e) => r == Err::<(), DropyError>(e) && final(record_data)@ == old(record_data)@,
        },
{
    if amount == 0 {
        return Err(DropyError::InvalidAmount);
    }
    if accounts.len() < 3 {
        return Err(DropyError::MissingAccount);
    }
    let signer = &accounts[0];
    let record = &accounts[1];
    if !signer.is_signer {
        return Err(DropyError::Unauthorized);
    }
    if !key_eq(&record.owner, program_id) {
        return Err(DropyError::WrongOwnerOfRecord);
    }
    let mut state = match load_state(record_data.as_slice()) {
        Ok(s) => s,
        Err(e) => {
            return Err(e);
        },
    };
    if state.campaign_id != campaign_id {
        return Err(DropyError::RecordIdMismatch);
    }
    if state.is_closed {
        return Err(DropyError::CampaignClosed);
    }
    if nonce <= state.last_nonce {
        return Err(DropyError::NonceNotIncreasing);
    }
    if state.total_claimed > state.total_deposited {
        return Err(DropyError::ArithmeticOverflow);
    }
    let remaining = state.total_deposited - state.total_claimed;
    if amount > remaining {
        return Err(DropyError::InsufficientRemainingBalance);
    }
    state.total_claimed = state.total_claimed + amount;
    state.last_nonce = nonce;
    store_state(&state, record_data)
}

/// Latches the campaign closed once its balance is fully claimed. On failure
/// the buffer is untouched.
pub fn close_campaign(
    program_id: &[u8; 32],
    accounts: &[Account],
    record_data: &mut Vec<u8>,
    campaign_id: u64,
) -> (r: Result<(), DropyError>)
    ensures
        match spec_close(program_id@, accounts@, old(record_data)@, campaign_id) {
            Ok(m) => r is Ok && final(record_data)@ == spec_encode_state(m) + old(
                record_data,
            )@.skip(RECORD_SIZE as int),
            Err(e) => r == Err::<(), DropyError>(e) && final(record_data)@ == old(record_data)@,
        },
{
    if accounts.len() < 2 {
        return Err(DropyError::MissingAccount);
    }
    let signer = &accounts[0];
    let record = &accounts[1];
    if !signer.is_signer {
        return Err(DropyError::Unauthorized);
    }
    if !key_eq(&record.owner, program_id) {
        return Err(DropyError::WrongOwnerOfRecord);
    }
    let mut state = match load_state(record_data.as_slice()) {
        Ok(s) => s,
        Err(e) => {
            return Err(e);
        },
    };
    if state.campaign_id != campaign_id {
        return Err(DropyError::RecordIdMismatch);
    }
    if !key_eq(&state.owner, &signer.key) {
        return Err(DropyError::NotOwner);
    }
    if state.total_claimed < state.total_deposited {
        return Err(DropyError::CampaignNotFullyClaimed);
    }
    state.is_closed = true;
    store_state(&state, record_data)
}

/// Decodes a raw request and routes it to its operation's handler, surfacing
/// that handler's outcome unchanged. `record_data` is the storage buffer of
/// the record account, the second account of every operation.
pub fn process_instruction(
    program_id: &[u8; 32],
    accounts: &[Account],
    record_data: &mut Vec<u8>,
    input: &[u8],
) -> (r: Result<(), DropyError>)
    ensures
        match spec_process(program_id@, accounts@, old(record_data)@, input@) {
            Ok(m) => r is Ok && final(record_data)@ == spec_encode_state(m) + old(
                record_data,
            )@.skip(RECORD_SIZE as int),
            Err(e) => r == Err::<(), DropyError>(e) && final(record_data)@ == old(record_data)@,
        },
{
    let instruction = match decode_instruction(input) {
        Ok(i) => i,
        Err(e) => {
            return Err(e);
        },
    };
    match instruction {
        DropyInstruction::InitializeCampaign { campaign_id } => initialize_campaign(
            program_id,
            accounts,
            record_data,
            campaign_id,
        ),
        DropyInstruction::DepositRewards { campaign_id, amount } => deposit_rewards(
            program_id,
            accounts,
            record_data,
            campaign_id,
            amount,
        ),
        DropyInstruction::ClaimReward { campaign_id, amount, nonce } => claim_reward(
            program_id,
            accounts,
            record_data,
            campaign_id,
            amount,
            nonce,
        ),
        DropyInstruction::CloseCampaign { campaign_id } => close_campaign(
            program_id,
            accounts,
            record_data,
            campaign_id,
        ),
    }
}

} // verus!
