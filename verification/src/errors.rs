use vstd::prelude::*;

verus! {

/// The error taxonomy of the farmer-house rules. Every operation evaluates
/// its checks before any state changes, and the first failing check aborts
/// the whole operation with one of these kinds.
#[derive(Clone, Copy, Debug, PartialEq, Eq, Structural)]
pub enum FarmerHouseError {
    /// A required authorizing signer did not sign.
    MissingRequiredSignature,
    /// An account's owning service does not match the expected service.
    OwnerMismatch,
    /// A collaborating service's identity does not match the expected one.
    ProgramMismatch,
    /// The caller is not the registered authority for the configuration.
    AuthorityMismatch,
    /// An asset's declared mint does not match the account referencing it.
    MintMismatch,
    /// A source balance is insufficient for the requested transfer.
    AmountMismatch,
    /// An asset's collection membership is absent or does not match any
    /// expected value for the operation.
    CollectionMismatch,
    /// The asset's collection marker is not verified, and the configuration
    /// demands verified markers.
    CollectionNotVerified,
    /// The custody record or slot is absent, malformed, or does not hold the
    /// expected single unit.
    TrifleMismatch,
    /// The crop has not yet advanced to the stage the operation expects.
    CropNotRipe,
    /// The crop has already advanced past the stage the operation expects.
    CropReady,
}

} // verus!
