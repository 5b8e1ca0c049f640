use vstd::prelude::*;

verus! {

/// Why a market operation was refused. A refused operation changes nothing.
#[derive(Clone, Copy, Debug, PartialEq, Eq, Structural)]
pub enum MintError {
    InvalidFeeFraction,
    PublicKeyNotHex,
    PublicKeyLength,
    SignatureNotHex,
    SignatureLength,
    SignatureCheckFailed,
    MintForYourselfOnly,
    TimestampTooOld,
    TimestampNotAfterLastAction,
    RequestAlreadyUsed,
    SelfReferral,
    InsufficientStorage,
    IllegalDeposit,
    SameOwner,
    PriceOverflow,
    GenerationOverflow,
    MissingStoragePackage,
    IllegalStorageToBuy,
    CollectionItemNotFound,
}

} // verus!
