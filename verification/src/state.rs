use vstd::prelude::*;
use vstd::bytes::{spec_u64_from_le_bytes, spec_u64_to_le_bytes, u64_from_le_bytes, u64_to_le_bytes};
use vstd::slice::{slice_subrange, slice_to_vec};
use crate::errors::DropyError;

verus! {

broadcast use vstd::array::group_array_axioms;

/// Size in bytes of the fixed record layout: campaign_id (8), owner (32),
/// token_mint (32), vault (32), total_deposited (8), total_claimed (8),
/// last_nonce (8), is_closed (1).
pub const RECORD_SIZE: usize = 8 + 32 + 32 + 32 + 8 + 8 + 8 + 1;

/// The persistent bookkeeping record of one reward campaign.
#[derive(Debug, Clone, PartialEq)]
pub struct CampaignState {
    /// Immutable identifier, set at creation.
    pub campaign_id: u64,
    /// Immutable; the only party permitted to deposit and close.
    pub owner: [u8; 32],
    /// The fungible value type this campaign distributes; set at creation.
    pub token_mint: [u8; 32],
    /// The external holding address recipients draw from.
    pub vault: [u8; 32],
    /// Monotonically non-decreasing; increased only by deposits.
    pub total_deposited: u64,
    /// Monotonically non-decreasing; increased only by claims.
    pub total_claimed: u64,
    /// Strictly increasing anti-replay watermark for claims.
    pub last_nonce: u64,
    /// One-way latch; once true, no further deposit or claim is permitted.
    pub is_closed: bool,
}

/// The mathematical model of a campaign record: the same fields, with the
/// 32-byte identities abstracted to byte sequences.
pub struct RecordModel {
    pub campaign_id: u64,
    pub owner: Seq<u8>,
    pub token_mint: Seq<u8>,
    pub vault: Seq<u8>,
    pub total_deposited: u64,
    pub total_claimed: u64,
    pub last_nonce: u64,
    pub is_closed: bool,
}

impl View for CampaignState {
    type V = RecordModel;

    open spec fn view(&self) -> RecordModel {
        RecordModel {
            campaign_id: self.campaign_id,
            owner: self.owner@,
            token_mint: self.token_mint@,
            vault: self.vault@,
            total_deposited: self.total_deposited,
            total_claimed: self.total_claimed,
            last_nonce: self.last_nonce,
            is_closed: self.is_closed,
        }
    }
}

impl CampaignState {
    /// Number of bytes of the fixed binary layout of a record.
    pub fn size() -> (r: usize)
        ensures
            r == RECORD_SIZE,
    {
        RECORD_SIZE
    }
}

/// The single byte that stands for a boolean in the record layout.
pub open spec fn spec_bool_byte(b: bool) -> u8 {
    if b {
        1u8
    } else {
        0u8
    }
}

/// The fixed 129-byte little-endian layout of a record.
pub open spec fn spec_encode_state(s: RecordModel) -> Seq<u8> {
    spec_u64_to_le_bytes(s.campaign_id) + s.owner + s.token_mint + s.vault
        + spec_u64_to_le_bytes(s.total_deposited) + spec_u64_to_le_bytes(s.total_claimed)
        + spec_u64_to_le_bytes(s.last_nonce) + seq![spec_bool_byte(s.is_closed)]
}

/// Reads the fixed layout back out of a buffer: `None` when the buffer is too
/// short to hold a record or its boolean byte is neither 0 nor 1; the bytes of
/// the layout otherwise, whatever follows them being ignored.
pub open spec fn spec_decode_state(data: Seq<u8>) -> Option<RecordModel> {
    if data.len() < RECORD_SIZE {
        None
    } else if data[128] != 0 && data[128] != 1 {
        None
    } else {
        Some(
            RecordModel {
                campaign_id: spec_u64_from_le_bytes(data.subrange(0, 8)),
                owner: data.subrange(8, 40),
                token_mint: data.subrange(40, 72),
                vault: data.subrange(72, 104),
                total_deposited: spec_u64_from_le_bytes(data.subrange(104, 112)),
                total_claimed: spec_u64_from_le_bytes(data.subrange(112, 120)),
                last_nonce: spec_u64_from_le_bytes(data.subrange(120, 128)),
                is_closed: data[128] == 1,
            },
        )
    }
}

/// Copies 32 bytes out of `data` starting at `off`.
fn read_key(data: &[u8], off: usize) -> (r: [u8; 32])
    requires
        off + 32 <= data@.len(),
        data@.len() <= usize::MAX,
    ensures
        r@ == data@.subrange(off as int, off + 32),
{
    let mut out: [u8; 32] = [0u8; 32];
    let mut i: usize = 0;
    while i < 32
        invariant
            0 <= i <= 32,
            off + 32 <= data@.len(),
            data@.len() <= usize::MAX,
            out@.len() == 32,
            forall|j: int| 0 <= j < i ==> out@[j] == data@[off + j],
        decreases 32 - i,
    {
        out[i] = data[off + i];
        i = i + 1;
    }
    proof {
        assert(out@ =~= data@.subrange(off as int, off + 32));
    }
    out
}

/// Parses the fixed record layout out of a storage buffer.
pub fn load_state(data: &[u8]) -> (r: Result<CampaignState, DropyError>)
    ensures
        match spec_decode_state(data@) {
            Some(m) => r is Ok && r.unwrap()@ == m,
            None => r == Err::<CampaignState, DropyError>(DropyError::CorruptRecord),
        },
{
    if data.len() < RECORD_SIZE {
        return Err(DropyError::CorruptRecord);
    }
    let closed_byte: u8 = data[128];
    if closed_byte != 0 && closed_byte != 1 {
        return Err(DropyError::CorruptRecord);
    }
    let state = CampaignState {
        campaign_id: u64_from_le_bytes(slice_subrange(data, 0, 8)),
        owner: read_key(data, 8),
        token_mint: read_key(data, 40),
        vault: read_key(data, 72),
        total_deposited: u64_from_le_bytes(slice_subrange(data, 104, 112)),
        total_claimed: u64_from_le_bytes(slice_subrange(data, 112, 120)),
        last_nonce: u64_from_le_bytes(slice_subrange(data, 120, 128)),
        is_closed: closed_byte == 1,
    };
    Ok(state)
}

/// Writes the fixed record layout of `s` as a fresh 129-byte vector.
fn encode_state(s: &CampaignState) -> (r: Vec<u8>)
    ensures
        r@ == spec_encode_state(s@),
        r@.len() == RECORD_SIZE,
{
    let mut out = u64_to_le_bytes(s.campaign_id);
    let mut owner_bytes = slice_to_vec(s.owner.as_slice());
    out.append(&mut owner_bytes);
    let mut mint_bytes = slice_to_vec(s.token_mint.as_slice());
    out.append(&mut mint_bytes);
    let mut vault_bytes = slice_to_vec(s.vault.as_slice());
    out.append(&mut vault_bytes);
    let mut deposited_bytes = u64_to_le_bytes(s.total_deposited);
    out.append(&mut deposited_bytes);
    let mut claimed_bytes = u64_to_le_bytes(s.total_claimed);
    out.append(&mut claimed_bytes);
    let mut nonce_bytes = u64_to_le_bytes(s.last_nonce);
    out.append(&mut nonce_bytes);
    out.push(if s.is_closed { 1u8 } else { 0u8 });
    proof {
        assert(out@ =~= spec_encode_state(s@));
    }
    out
}

/// Serializes `s` into the front of a storage buffer of at least
/// `RECORD_SIZE` bytes, leaving any bytes after the record untouched.
pub fn store_state(s: &CampaignState, data: &mut Vec<u8>) -> (r: Result<(), DropyError>)
    ensures
        old(data)@.len() >= RECORD_SIZE ==> r is Ok && final(data)@ == spec_encode_state(s@) + old(
            data,
        )@.skip(RECORD_SIZE as int),
        old(data)@.len() < RECORD_SIZE ==> r == Err::<(), DropyError>(DropyError::BufferTooSmall)
            && final(data)@ == old(data)@,
{
    if data.len() < RECORD_SIZE {
        return Err(DropyError::BufferTooSmall);
    }
    let bytes = encode_state(s);
    let mut i: usize = 0;
    while i < RECORD_SIZE
        invariant
            0 <= i <= RECORD_SIZE,
            bytes@.len() == RECORD_SIZE,
            bytes@ == spec_encode_state(s@),
            data@.len() == old(data)@.len(),
            old(data)@.len() >= RECORD_SIZE,
            forall|j: int| 0 <= j < i ==> data@[j] == bytes@[j],
            forall|j: int| i <= j < data@.len() ==> data@[j] == old(data)@[j],
        decreases RECORD_SIZE - i,
    {
        data[i] = bytes[i];
        i = i + 1;
    }
    proof {
        assert(data@ =~= spec_encode_state(s@) + old(data)@.skip(RECORD_SIZE as int));
    }
    Ok(())
}

/// A record written with `spec_encode_state` always reads back as itself,
/// whatever bytes follow it in the buffer: the layout loses nothing, provided
/// the model's identities are the 32-byte values the record holds.
pub proof fn lemma_codec_round_trip(s: RecordModel, rest: Seq<u8>)
    requires
        s.owner.len() == 32,
        s.token_mint.len() == 32,
        s.vault.len() == 32,
    ensures
        spec_decode_state(spec_encode_state(s) + rest) == Some(s),
{
    vstd::bytes::lemma_auto_spec_u64_to_from_le_bytes();
    let e = spec_encode_state(s) + rest;
    assert(spec_encode_state(s).len() == RECORD_SIZE);
    assert(e.subrange(0, 8) =~= spec_u64_to_le_bytes(s.campaign_id));
    assert(e.subrange(8, 40) =~= s.owner);
    assert(e.subrange(40, 72) =~= s.token_mint);
    assert(e.subrange(72, 104) =~= s.vault);
    assert(e.subrange(104, 112) =~= spec_u64_to_le_bytes(s.total_deposited));
    assert(e.subrange(112, 120) =~= spec_u64_to_le_bytes(s.total_claimed));
    assert(e.subrange(120, 128) =~= spec_u64_to_le_bytes(s.last_nonce));
    assert(e[128] == spec_bool_byte(s.is_closed));
    let d = spec_decode_state(e).unwrap();
    assert(d.owner =~= s.owner);
    assert(d.token_mint =~= s.token_mint);
    assert(d.vault =~= s.vault);
}

} // verus!
