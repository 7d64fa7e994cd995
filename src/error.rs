//! Why an escrow operation was refused. Every refusal leaves all state as it was.
use vstd::prelude::*;

verus! {

#[derive(Clone, Copy, Debug, PartialEq, Eq, Structural)]
pub enum ErrorCode {
    /// Withdrawal before both parties have paid their part.
    IncompleteDeal,
    /// The caller is not a party allowed to perform the operation.
    InvalidUser,
    /// A holding account still contains funds.
    AccountContainsFund,
    /// A stored derivation proof does not reproduce the expected address.
    InvalidDerivation,
    /// The source account lacks the funds for a transfer.
    InsufficientBalance,
    /// An account holds another asset type than the transfer moves.
    TypeMismatch,
    /// The transfer's authority does not own the source account.
    OwnerMismatch,
    /// The destination balance would exceed `u64::MAX`.
    Overflow,
    /// The maker already has an active deal.
    DealExists,
    /// No deal record is stored for the maker.
    DealNotFound,
    /// The deal is already fulfilled; no further deposit is taken.
    AlreadyFulfilled,
}

} // verus!
