use vstd::prelude::*;

verus! {

/// Why an operation on a group was refused. No state is changed when one is returned.
#[derive(Clone, Copy, Debug, PartialEq, Eq, Structural)]
pub enum ErrorCode {
    UserAlreadyExists,
    UserDoesNotExist,
    UserBalanceNonZero,
    GroupAtCapacity,
    CannotRemoveAdmin,
    AlreadyAdmin,
    UserNotApproved,
    InvalidCurrencyAccount,
    InvalidEscrowAccount,
    InconsistentTokenPrograms,
    InconsistentEscrowOwner,
    InconsistentEscrowMint,
    EscrowHasDelegate,
    EscrowIsFrozen,
    EscrowHasCloseAuthority,
    InconsistentBalanceLengths,
    AmountIsNotPositive,
    AmountOverflow,
    InvalidSenderAccount,
    InconsistentSenderMint,
    InconsistentEscrow,
    TransferFailed,
    InvalidRecipientAccount,
    InconsistentRecipientMint,
    InconsistentSenderOwner,
    InconsistentRecipientOwner,
    SenderIsFrozen,
    RecipientIsFrozen,
    InsufficientUserBalance,
    InsufficientEscrowBalance,
    Unauthorized,
    UnauthorizedAdd,
    UnauthorizedRemove,
    UnauthorizedTransfer,
}

impl ErrorCode {
    /// A sentence that explains the error to a user.
    pub fn message(&self) -> &'static str {
        match self {
            ErrorCode::UserAlreadyExists => "The user already exists in this group",
            ErrorCode::UserDoesNotExist => "The user does not exist in this group",
            ErrorCode::UserBalanceNonZero => "The user has a non-zero balance",
            ErrorCode::GroupAtCapacity => "The group has reached maximum capacity",
            ErrorCode::CannotRemoveAdmin => "The admin of the group cannot be removed",
            ErrorCode::AlreadyAdmin => "The user is already the admin of this group",
            ErrorCode::UserNotApproved => "The user has not approved their membership",
            ErrorCode::InvalidCurrencyAccount => "An invalid currency account was provided",
            ErrorCode::InvalidEscrowAccount => "An invalid escrow account was provided",
            ErrorCode::InconsistentTokenPrograms => "Two token accounts are owned by different token programs",
            ErrorCode::InconsistentEscrowOwner => "The escrow owner does not match the group PDA",
            ErrorCode::InconsistentEscrowMint => "The escrow mint does not match the currency mint",
            ErrorCode::EscrowHasDelegate => "The escrow has a delegate",
            ErrorCode::EscrowIsFrozen => "The escrow is frozen",
            ErrorCode::EscrowHasCloseAuthority => "The escrow has a close authority",
            ErrorCode::InconsistentBalanceLengths => "Lengths of users and amounts do not match",
            ErrorCode::AmountIsNotPositive => "Negative and zero amounts are not allowed",
            ErrorCode::AmountOverflow => "An overflow occurred when modifying the balance",
            ErrorCode::InvalidSenderAccount => "An invalid sender account was provided",
            ErrorCode::InconsistentSenderMint => "The sender mint does not match the currency mint",
            ErrorCode::InconsistentEscrow => "The provided escrow account does not match the group escrow account",
            ErrorCode::TransferFailed => "The transfer between token accounts failed",
            ErrorCode::InvalidRecipientAccount => "An invalid recipient account was provided",
            ErrorCode::InconsistentRecipientMint => "The recipient mint does not match the currency mint",
            ErrorCode::InconsistentSenderOwner => "The owner of the sender account does not match the payer",
            ErrorCode::InconsistentRecipientOwner => "The owner of the recipient account does not match the payer",
            ErrorCode::SenderIsFrozen => "The sender account is frozen",
            ErrorCode::RecipientIsFrozen => "The recipient account is frozen",
            ErrorCode::InsufficientUserBalance => "The user does not have a sufficient balance to process this withdrawal",
            ErrorCode::InsufficientEscrowBalance => "The escrow does not have a sufficient balance to process this withdrawal",
            ErrorCode::Unauthorized => "The instruction requires an admin key",
            ErrorCode::UnauthorizedAdd => "Only group admin can add users",
            ErrorCode::UnauthorizedRemove => "Only group admin or the user can remove a user",
            ErrorCode::UnauthorizedTransfer => "Only group admin can transfer the admin role",
        }
    }
}

} // verus!
