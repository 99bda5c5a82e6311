use vstd::prelude::*;

verus! {

/// The address that the external derivation function assigns to a namespace
/// tag, a campaign identifier and a program identity, when one exists. The
/// derivation is deterministic: the same seeds under the same program always
/// yield the same address.
pub uninterp spec fn pda_of(tag: Seq<u8>, campaign_id: u64, program_id: Seq<u8>) -> Option<Seq<u8>>;

/// The namespace tag of a campaign record address: the bytes of "campaign".
pub open spec fn campaign_tag() -> Seq<u8> {
    seq![99u8, 97u8, 109u8, 112u8, 97u8, 105u8, 103u8, 110u8]
}

/// The namespace tag of a campaign vault address: the bytes of "vault".
pub open spec fn vault_tag() -> Seq<u8> {
    seq![118u8, 97u8, 117u8, 108u8, 116u8]
}

/// Relies on solana_program::pubkey::Pubkey::try_find_program_address: the
/// returned address, and whether one exists at all, depend only on the seed
/// bytes (here the tag and the little-endian campaign identifier) and the
/// program identity.
#[verifier::external_body]
fn derive_pda(tag: &[u8], campaign_id: u64, program_id: &[u8; 32]) -> (r: Option<[u8; 32]>)
    ensures
        match r {
            Some(k) => pda_of(tag@, campaign_id, program_id@) == Some(k@),
            None => pda_of(tag@, campaign_id, program_id@) is None,
        },
{
    let pid = solana_program::pubkey::Pubkey::new_from_array(*program_id);
    let id_bytes = campaign_id.to_le_bytes();
    let seeds: &[&[u8]] = &[tag, &id_bytes];
    solana_program::pubkey::Pubkey::try_find_program_address(seeds, &pid).map(
        |found: (solana_program::pubkey::Pubkey, u8)| found.0.to_bytes(),
    )
}

/// Derives the canonical address of the record of campaign `campaign_id`
/// under `program_id`; `None` in the improbable event that the namespace has
/// no viable address.
pub fn derive_campaign_address(campaign_id: u64, program_id: &[u8; 32]) -> (r: Option<[u8; 32]>)
    ensures
        match r {
            Some(k) => pda_of(campaign_tag(), campaign_id, program_id@) == Some(k@),
            None => pda_of(campaign_tag(), campaign_id, program_id@) is None,
        },
{
    let tag: [u8; 8] = [99u8, 97u8, 109u8, 112u8, 97u8, 105u8, 103u8, 110u8];
    proof {
        assert(tag@ =~= campaign_tag());
    }
    derive_pda(tag.as_slice(), campaign_id, program_id)
}

/// Derives the canonical address of the vault of campaign `campaign_id` under
/// `program_id`; `None` in the improbable event that the namespace has no
/// viable address.
pub fn derive_vault_address(campaign_id: u64, program_id: &[u8; 32]) -> (r: Option<[u8; 32]>)
    ensures
        match r {
            Some(k) => pda_of(vault_tag(), campaign_id, program_id@) == Some(k@),
            None => pda_of(vault_tag(), campaign_id, program_id@) is None,
        },
{
    let tag: [u8; 5] = [118u8, 97u8, 117u8, 108u8, 116u8];
    proof {
        assert(tag@ =~= vault_tag());
    }
    derive_pda(tag.as_slice(), campaign_id, program_id)
}

/// Compares two 32-byte identities.
pub fn key_eq(a: &[u8; 32], b: &[u8; 32]) -> (r: bool)
    ensures
        r == (a@ == b@),
{
    let mut i: usize = 0;
    while i < 32
        invariant
            0 <= i <= 32,
            forall|j: int| 0 <= j < i ==> a@[j] == b@[j],
        decreases 32 - i,
    {
        if a[i] != b[i] {
            assert(a@[i as int] != b@[i as int]);
            return false;
        }
        i = i + 1;
    }
    proof {
        assert(a@ =~= b@);
    }
    true
}

} // verus!
