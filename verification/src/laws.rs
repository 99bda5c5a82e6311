use vstd::prelude::*;
use crate::address::{campaign_tag, pda_of, vault_tag};
use crate::errors::DropyError;
use crate::processor::{spec_claim, spec_close, spec_deposit, spec_initialize, spec_process, Account};
use crate::state::{lemma_codec_round_trip, spec_decode_state, spec_encode_state, RecordModel, RECORD_SIZE};

verus! {

/// The bound every reachable record satisfies: the engine never accounts for
/// paying out more than was deposited.
pub open spec fn record_wf(s: RecordModel) -> bool {
    s.total_claimed <= s.total_deposited
}

/// The claimed total never exceeds the deposited total. A fresh record
/// satisfies the bound, and every successful operation applied to a record
/// satisfying it yields a record satisfying it; by induction every reachable
/// record state does.
pub proof fn lemma_claimed_never_exceeds_deposited(
    program_id: Seq<u8>,
    accounts: Seq<Account>,
    data: Seq<u8>,
    input: Seq<u8>,
)
    requires
        spec_process(program_id, accounts, data, input) is Ok,
        spec_decode_state(data) matches Some(s) ==> record_wf(s),
    ensures
        record_wf(spec_process(program_id, accounts, data, input).unwrap()),
{
}

/// One submitted request: its account list and its raw payload.
pub struct Request {
    pub accounts: Seq<Account>,
    pub input: Seq<u8>,
}

/// The buffer a successful operation leaves behind: the new record at the
/// front, the tail bytes untouched — exactly what `process_instruction`
/// ensures of the record buffer.
pub open spec fn spec_next_buffer(m: RecordModel, data: Seq<u8>) -> Seq<u8> {
    spec_encode_state(m) + data.skip(RECORD_SIZE as int)
}

/// Runs a sequence of requests against one record, each request reading the
/// buffer the one before left; `None` as soon as any request fails.
pub open spec fn spec_run(
    program_id: Seq<u8>,
    requests: Seq<Request>,
    data: Seq<u8>,
) -> Option<Seq<u8>>
    decreases requests.len(),
{
    if requests.len() == 0 {
        Some(data)
    } else {
        match spec_process(program_id, requests[0].accounts, data, requests[0].input) {
            Ok(m) => spec_run(program_id, requests.skip(1), spec_next_buffer(m, data)),
            Err(_) => None,
        }
    }
}

/// Every record a successful operation produces carries 32-byte identities:
/// a fresh record copies them from the account list, and every other
/// operation keeps the ones the stored record held.
pub proof fn lemma_process_keeps_key_widths(
    program_id: Seq<u8>,
    accounts: Seq<Account>,
    data: Seq<u8>,
    input: Seq<u8>,
)
    requires
        spec_process(program_id, accounts, data, input) is Ok,
    ensures
        spec_process(program_id, accounts, data, input).unwrap().owner.len() == 32,
        spec_process(program_id, accounts, data, input).unwrap().token_mint.len() == 32,
        spec_process(program_id, accounts, data, input).unwrap().vault.len() == 32,
{
}

/// The bound of `record_wf` holds of every reachable record state: whatever
/// record a successful run of requests leaves behind — starting from any
/// buffer whose record, if one can be read at all, respects the bound —
/// still respects it.
pub proof fn lemma_reachable_states_wf(program_id: Seq<u8>, requests: Seq<Request>, data: Seq<u8>)
    requires
        spec_run(program_id, requests, data) is Some,
        spec_decode_state(data) matches Some(s) ==> record_wf(s),
    ensures
        spec_decode_state(spec_run(program_id, requests, data).unwrap()) matches Some(s)
            ==> record_wf(s),
    decreases requests.len(),
{
    if requests.len() > 0 {
        let m = spec_process(program_id, requests[0].accounts, data, requests[0].input).unwrap();
        lemma_claimed_never_exceeds_deposited(program_id, requests[0].accounts, data, requests[0].input);
        lemma_process_keeps_key_widths(program_id, requests[0].accounts, data, requests[0].input);
        lemma_codec_round_trip(m, data.skip(RECORD_SIZE as int));
        lemma_reachable_states_wf(program_id, requests.skip(1), spec_next_buffer(m, data));
    }
}

/// A successful claim records exactly the nonce it carried, and that nonce
/// strictly exceeds the watermark the record held before.
pub proof fn lemma_claim_advances_watermark(
    program_id: Seq<u8>,
    accounts: Seq<Account>,
    data: Seq<u8>,
    campaign_id: u64,
    amount: u64,
    nonce: u64,
)
    requires
        spec_claim(program_id, accounts, data, campaign_id, amount, nonce) is Ok,
    ensures
        spec_claim(program_id, accounts, data, campaign_id, amount, nonce).unwrap().last_nonce
            == nonce,
        nonce > spec_decode_state(data).unwrap().last_nonce,
{
}

/// One submitted claim: its account list, campaign, amount and nonce.
pub struct ClaimRequest {
    pub accounts: Seq<Account>,
    pub campaign_id: u64,
    pub amount: u64,
    pub nonce: u64,
}

/// Runs a sequence of claims against one record, each claim reading the
/// buffer the one before left; `None` as soon as any claim fails.
pub open spec fn spec_run_claims(
    program_id: Seq<u8>,
    claims: Seq<ClaimRequest>,
    data: Seq<u8>,
) -> Option<Seq<u8>>
    decreases claims.len(),
{
    if claims.len() == 0 {
        Some(data)
    } else {
        match spec_claim(
            program_id,
            claims[0].accounts,
            data,
            claims[0].campaign_id,
            claims[0].amount,
            claims[0].nonce,
        ) {
            Ok(m) => spec_run_claims(program_id, claims.skip(1), spec_next_buffer(m, data)),
            Err(_) => None,
        }
    }
}

/// Over every successful claim sequence on one record, the accepted nonces
/// are strictly increasing, and every one of them strictly exceeds the
/// watermark the record held at the start.
pub proof fn lemma_claim_nonces_strictly_increase(
    program_id: Seq<u8>,
    claims: Seq<ClaimRequest>,
    data: Seq<u8>,
)
    requires
        spec_run_claims(program_id, claims, data) is Some,
    ensures
        claims.len() > 0 ==> forall|k: int|
            0 <= k < claims.len() ==> #[trigger] claims[k].nonce > spec_decode_state(
                data,
            ).unwrap().last_nonce,
        forall|i: int, j: int| 0 <= i < j < claims.len() ==> claims[i].nonce < claims[j].nonce,
    decreases claims.len(),
{
    if claims.len() > 0 {
        let c0 = claims[0];
        let m1 = spec_claim(program_id, c0.accounts, data, c0.campaign_id, c0.amount, c0.nonce).unwrap();
        let s = spec_decode_state(data).unwrap();
        assert(m1.last_nonce == c0.nonce && c0.nonce > s.last_nonce);
        lemma_codec_round_trip(m1, data.skip(RECORD_SIZE as int));
        let data1 = spec_next_buffer(m1, data);
        lemma_claim_nonces_strictly_increase(program_id, claims.skip(1), data1);
        assert forall|k: int| 0 <= k < claims.len() implies #[trigger] claims[k].nonce
            > s.last_nonce by {
            if k > 0 {
                assert(claims.skip(1)[k - 1] == claims[k]);
                assert(claims[k].nonce > m1.last_nonce);
            }
        }
        assert forall|i: int, j: int| 0 <= i < j < claims.len() implies claims[i].nonce
            < claims[j].nonce by {
            assert(claims.skip(1)[j - 1] == claims[j]);
            assert(claims[j].nonce > m1.last_nonce);
            if i > 0 {
                assert(claims.skip(1)[i - 1] == claims[i]);
            }
        }
    }
}

/// A claim whose nonce does not strictly exceed the record's watermark is
/// rejected as NonceNotIncreasing, whatever (positive) amount it carries; the
/// record buffer is left byte-for-byte unchanged, as `claim_reward` ensures
/// of every rejected claim.
pub proof fn lemma_replayed_nonce_rejected(
    program_id: Seq<u8>,
    accounts: Seq<Account>,
    data: Seq<u8>,
    campaign_id: u64,
    amount: u64,
    nonce: u64,
)
    requires
        amount > 0,
        accounts.len() >= 3,
        accounts[0].is_signer,
        accounts[1].owner@ == program_id,
        spec_decode_state(data) matches Some(s) && s.campaign_id == campaign_id && !s.is_closed
            && nonce <= s.last_nonce,
    ensures
        spec_claim(program_id, accounts, data, campaign_id, amount, nonce) == Err::<
            RecordModel,
            DropyError,
        >(DropyError::NonceNotIncreasing),
{
}

/// The closure gate: on a record within its accounting bound, a close
/// succeeds exactly when every deposited unit has been claimed, and is
/// otherwise rejected as CampaignNotFullyClaimed — with the buffer unchanged,
/// as `close_campaign` ensures of every rejected close.
pub proof fn lemma_close_gate(
    program_id: Seq<u8>,
    accounts: Seq<Account>,
    data: Seq<u8>,
    campaign_id: u64,
)
    requires
        accounts.len() >= 2,
        accounts[0].is_signer,
        accounts[1].owner@ == program_id,
        spec_decode_state(data) matches Some(s) && s.campaign_id == campaign_id && s.owner
            == accounts[0].key@ && record_wf(s),
    ensures
        spec_close(program_id, accounts, data, campaign_id) is Ok <==> spec_decode_state(
            data,
        ).unwrap().total_claimed == spec_decode_state(data).unwrap().total_deposited,
        spec_decode_state(data).unwrap().total_claimed != spec_decode_state(
            data,
        ).unwrap().total_deposited ==> spec_close(program_id, accounts, data, campaign_id) == Err::<
            RecordModel,
            DropyError,
        >(DropyError::CampaignNotFullyClaimed),
{
}

/// A deposit whose amount would push `total_deposited` past the 64-bit
/// maximum is rejected as ArithmeticOverflow rather than wrapped.
pub proof fn lemma_deposit_overflow_rejected(
    program_id: Seq<u8>,
    accounts: Seq<Account>,
    data: Seq<u8>,
    campaign_id: u64,
    amount: u64,
)
    requires
        amount > 0,
        accounts.len() >= 2,
        accounts[0].is_signer,
        accounts[1].owner@ == program_id,
        spec_decode_state(data) matches Some(s) && s.campaign_id == campaign_id && !s.is_closed
            && s.owner == accounts[0].key@,
        spec_decode_state(data).unwrap().total_deposited + amount > u64::MAX,
    ensures
        spec_deposit(program_id, accounts, data, campaign_id, amount) == Err::<
            RecordModel,
            DropyError,
        >(DropyError::ArithmeticOverflow),
{
}

/// On a record within its accounting bound, a claim can never wrap
/// `total_claimed`: an amount that would push it past the 64-bit maximum
/// already exceeds the remaining balance and is rejected, and a successful
/// claim raises the counter by exactly the amount claimed.
pub proof fn lemma_claim_cannot_wrap(
    program_id: Seq<u8>,
    accounts: Seq<Account>,
    data: Seq<u8>,
    campaign_id: u64,
    amount: u64,
    nonce: u64,
)
    requires
        spec_decode_state(data) matches Some(s) && record_wf(s),
    ensures
        spec_decode_state(data).unwrap().total_claimed + amount > u64::MAX ==> spec_claim(
            program_id,
            accounts,
            data,
            campaign_id,
            amount,
            nonce,
        ) is Err,
        spec_claim(program_id, accounts, data, campaign_id, amount, nonce) matches Ok(m)
            ==> m.total_claimed == spec_decode_state(data).unwrap().total_claimed + amount,
{
}

/// A successful deposit raises `total_deposited` by exactly the amount
/// deposited: the addition is exact, never wrapped.
pub proof fn lemma_deposit_exact(
    program_id: Seq<u8>,
    accounts: Seq<Account>,
    data: Seq<u8>,
    campaign_id: u64,
    amount: u64,
)
    ensures
        spec_deposit(program_id, accounts, data, campaign_id, amount) matches Ok(m)
            ==> m.total_deposited == spec_decode_state(data).unwrap().total_deposited + amount,
{
}

/// Initialization rejects as AddressMismatch any supplied record or vault
/// address that is not the deterministic derivation for the campaign.
pub proof fn lemma_address_mismatch_rejected(
    program_id: Seq<u8>,
    accounts: Seq<Account>,
    data_len: nat,
    campaign_id: u64,
)
    requires
        accounts.len() >= 4,
        accounts[0].is_signer,
        accounts[1].owner@ == program_id,
        data_len >= RECORD_SIZE,
        pda_of(campaign_tag(), campaign_id, program_id) != Some(accounts[1].key@) || pda_of(
            vault_tag(),
            campaign_id,
            program_id,
        ) != Some(accounts[3].key@),
    ensures
        spec_initialize(program_id, accounts, data_len, campaign_id) == Err::<
            RecordModel,
            DropyError,
        >(DropyError::AddressMismatch),
{
}

/// No operation ever changes a record's identity fields: a successful
/// deposit, claim or close keeps the campaign identifier, the owner, the
/// value kind and the vault address exactly as they were.
pub proof fn lemma_identities_immutable(
    program_id: Seq<u8>,
    accounts: Seq<Account>,
    data: Seq<u8>,
    input: Seq<u8>,
)
    requires
        spec_process(program_id, accounts, data, input) is Ok,
        spec_decode_state(data) is Some,
        !(crate::instruction::spec_decode_instruction(input) matches Some(
            crate::instruction::DropyInstruction::InitializeCampaign { .. },
        )),
    ensures
        spec_process(program_id, accounts, data, input).unwrap().campaign_id == spec_decode_state(
            data,
        ).unwrap().campaign_id,
        spec_process(program_id, accounts, data, input).unwrap().owner == spec_decode_state(
            data,
        ).unwrap().owner,
        spec_process(program_id, accounts, data, input).unwrap().token_mint == spec_decode_state(
            data,
        ).unwrap().token_mint,
        spec_process(program_id, accounts, data, input).unwrap().vault == spec_decode_state(
            data,
        ).unwrap().vault,
{
}

} // verus!
