use vstd::prelude::*;

verus! {

/// Every way a request can be rejected. A failed request never mutates the
/// record: each check is terminal and aborts the whole operation.
#[derive(Clone, Copy, Debug, PartialEq, Eq, Structural)]
pub enum DropyError {
    /// The request payload has an unknown tag or the wrong length.
    MalformedRequest,
    /// The initiating account has not signed the request.
    Unauthorized,
    /// The record account is not controlled by this program.
    WrongOwnerOfRecord,
    /// The record buffer is too small to hold the fixed-size record.
    BufferTooSmall,
    /// A supplied address does not equal its deterministic derivation.
    AddressMismatch,
    /// The record buffer cannot be parsed as a campaign record.
    CorruptRecord,
    /// The stored record's campaign identifier differs from the request's.
    RecordIdMismatch,
    /// The campaign is closed to further deposits and claims.
    CampaignClosed,
    /// The initiating signer is not the campaign's owner.
    NotOwner,
    /// The request carries a zero amount.
    InvalidAmount,
    /// A claim's nonce does not strictly exceed the record's watermark.
    NonceNotIncreasing,
    /// A counter update would overflow 64 bits.
    ArithmeticOverflow,
    /// A claim asks for more than the remaining balance.
    InsufficientRemainingBalance,
    /// A close was attempted while value remains unclaimed.
    CampaignNotFullyClaimed,
    /// The request supplies fewer accounts than its operation needs.
    MissingAccount,
}

} // verus!
