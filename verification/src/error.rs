//! The structured failures the engine can report.
use vstd::prelude::*;

verus! {

/// Every way an invocation can fail.
///
/// A scan that finds no opportunity is not a failure; it is reported as
/// [`crate::arb::ArbitrageOutcome::NoArbitrage`].
#[derive(Clone, Copy, Debug, PartialEq, Eq, Structural)]
pub enum ArbitrageProgramError {
    /// The instruction payload does not have the expected shape.
    InvalidInstructionData,
    /// The sensitivity parameter lies outside `[0, 100]`.
    InvalidTemperature,
    /// A claimed pool address is not the one derived from its program id.
    InvalidPoolAddress,
    /// A token account's owner is neither the payer nor one of the pools.
    TokenAccountOwnerNotFound,
    /// The baskets are not aligned: the user, venue-1 and venue-2 baskets
    /// and the mint list must all have the same length, and at least two
    /// assets are needed to form a pair.
    InvalidAccountsList,
    /// A quote is undefined: the venue's pay-side reserve and the paid
    /// amount are both zero, so the constant-product formula would divide
    /// by zero.
    InsufficientLiquidity,
}

} // verus!
