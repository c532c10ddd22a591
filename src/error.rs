use vstd::prelude::*;

verus! {

/// The ways a redemption can fail. Each one aborts the whole operation.
#[derive(Clone, Copy, Debug, PartialEq, Eq, Structural)]
pub enum MetaplexError {
    /// The requested edition offset lies outside the window of the placement.
    InvalidEditionNumber,
    /// A checked addition would have left the range of `u64`.
    NumericalOverflowError,
    /// The prize of the placement is not a printing-v2 prize.
    WrongBidEndpointForPrize,
    /// An account's address is not the one derived from its seeds.
    DerivedKeyInvalid,
    /// The destination token account does not hold exactly one token.
    ProvidedAccountDoesNotContainOneToken,
    /// A referenced account is owned by an unexpected program.
    IncorrectOwner,
}

} // verus!
