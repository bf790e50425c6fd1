//! Why a call is refused.  The contract reverts the whole call on each of these.

use vstd::prelude::*;

verus! {

/// A refusal of the launchpad, one variant per message of the contract.
#[derive(Debug, Clone, Copy, PartialEq, Eq, Structural)]
pub enum LaunchpadError {
    AddTicketsPeriodPassed,
    NotInConfirmationPeriod,
    BlacklistOnlyBeforeWinnerSelection,
    NotInWinnerSelectionPeriod,
    NotInClaimPeriod,
    TokensAlreadyDeposited,
    WrongToken,
    WrongAmount,
    InvalidTokenId,
    TicketPriceZero,
    LaunchpadTokensPerTicketZero,
    WinningTicketsZero,
    StartRoundInProgressOrPassed,
    StartRoundInPast,
    WinnerSelectionBeforeConfirm,
    ClaimBeforeWinnerSelection,
    PermissionDenied,
    OnlyOwner,
    DuplicateEntry,
    NoTickets,
    ContractPaused,
    LaunchpadTokensNotDeposited,
    Blacklisted,
    TooManyTicketsConfirmed,
    WrongPaymentToken,
    WrongAmountSent,
    AlreadyClaimed,
    TicketsAlreadyFiltered,
    MustFilterFirst,
    WinnersAlreadySelected,
    AnotherOperationInProgress,
    /// A computation left the range of the integers that hold it; the contract
    /// reverts with a panic there.
    ArithmeticError,
    MaxUnlockMilestonesExceeded,
    InvalidUnlockSchedule,
    InvalidPaymentToken,
    UserAlreadyClaimedTokens,
    InsufficientFundsDeposited,
    AlreadyClaimedAllTokens,
    TooManyGuaranteedTicketsEntries,
    InvalidGuaranteedTicketMinConfirmed,
    NotEnoughWinningTickets,
    WinningTicketsExceeded,
    MustSelectBaseWinnersFirst,
    AlreadyDistributedTickets,
    UserNotFound,
    InvalidOperationData,
    InvalidTotalAvailableNfts,
    EgldTokenHasNoNonce,
    InvalidEsdtTokenId,
    CostZero,
    MustConfirmTicketsFirst,
    AlreadyConfirmedNft,
    InvalidPayment,
    SftSetupNotComplete,
    InitialSftsAlreadyCreated,
    AlreadySelectedNftWinners,
    AlreadyPerformedStep,
    IndexOutOfRange,
    TooManyGuaranteedUsers,
    InvalidMinConfirmed,
    CannotChangeUnlockSchedule,
    WrongReleaseSchedule,
    ReleaseEpochsNotInOrder,
    UnlockPercentageNot100,
    NoClaimableTokens,
    /// Stored data that cannot be read as the type expected.
    StorageDecodeError,
    ConfirmationStartEpochInPast,
    StartEpochInPast,
    ClaimStartEpochInPast,
    StartEpochInProgressOrPassed,
    WinnerSelectionEpochBeforeConfirm,
    NewTicketsNotMore,
    InvalidLockPercentage,
    InvalidUnlockEpoch,
    InvalidScAddress,
}

impl LaunchpadError {
    /// The message of an error, as text.
    pub open spec fn spec_message(&self) -> Seq<char> {
        match *self {
            LaunchpadError::AddTicketsPeriodPassed => "Add tickets period has passed"@,
            LaunchpadError::NotInConfirmationPeriod => "Not in confirmation period"@,
            LaunchpadError::BlacklistOnlyBeforeWinnerSelection => "May only modify blacklist before winner selection"@,
            LaunchpadError::NotInWinnerSelectionPeriod => "Not in winner selection period"@,
            LaunchpadError::NotInClaimPeriod => "Not in claim period"@,
            LaunchpadError::TokensAlreadyDeposited => "Tokens already deposited"@,
            LaunchpadError::WrongToken => "Wrong token"@,
            LaunchpadError::WrongAmount => "Wrong amount"@,
            LaunchpadError::InvalidTokenId => "Invalid token ID"@,
            LaunchpadError::TicketPriceZero => "Ticket price must be higher than 0"@,
            LaunchpadError::LaunchpadTokensPerTicketZero => "Launchpad tokens per winning ticket cannot be set to zero"@,
            LaunchpadError::WinningTicketsZero => "Cannot set number of winning tickets to zero"@,
            LaunchpadError::StartRoundInProgressOrPassed => "Cannot change start round, it's either in progress or passed already"@,
            LaunchpadError::StartRoundInPast => "Start round cannot be in the past"@,
            LaunchpadError::WinnerSelectionBeforeConfirm => "Winner selection start round must be after confirm start round"@,
            LaunchpadError::ClaimBeforeWinnerSelection => "Claim period must be after winner selection"@,
            LaunchpadError::PermissionDenied => "Permission denied"@,
            LaunchpadError::OnlyOwner => "Endpoint can only be called by owner"@,
            LaunchpadError::DuplicateEntry => "Duplicate entry for user"@,
            LaunchpadError::NoTickets => "You have no tickets"@,
            LaunchpadError::ContractPaused => "Contract is paused"@,
            LaunchpadError::LaunchpadTokensNotDeposited => "Launchpad tokens not deposited yet"@,
            LaunchpadError::Blacklisted => "You have been put into the blacklist and may not confirm tickets"@,
            LaunchpadError::TooManyTicketsConfirmed => "Trying to confirm too many tickets"@,
            LaunchpadError::WrongPaymentToken => "Wrong payment token used"@,
            LaunchpadError::WrongAmountSent => "Wrong amount sent"@,
            LaunchpadError::AlreadyClaimed => "Already claimed"@,
            LaunchpadError::TicketsAlreadyFiltered => "Tickets already filtered"@,
            LaunchpadError::MustFilterFirst => "Must filter tickets first"@,
            LaunchpadError::WinnersAlreadySelected => "Winners already selected"@,
            LaunchpadError::AnotherOperationInProgress => "Another ongoing operation is in progress"@,
            LaunchpadError::ArithmeticError => "panic occurred"@,
            LaunchpadError::MaxUnlockMilestonesExceeded => "Maximum unlock milestones entries exceeded"@,
            LaunchpadError::InvalidUnlockSchedule => "Invalid unlock schedule"@,
            LaunchpadError::InvalidPaymentToken => "Invalid payment token"@,
            LaunchpadError::UserAlreadyClaimedTokens => "User already claimed tokens"@,
            LaunchpadError::InsufficientFundsDeposited => "Insufficient funds deposited"@,
            LaunchpadError::AlreadyClaimedAllTokens => "Already claimed all tokens"@,
            LaunchpadError::TooManyGuaranteedTicketsEntries => "Number of guaranteed tickets entries exceeds maximum allowed"@,
            LaunchpadError::InvalidGuaranteedTicketMinConfirmed => "Invalid guaranteed ticket min confirmed tickets"@,
            LaunchpadError::NotEnoughWinningTickets => "Not enough winning tickets for guaranteed allocation"@,
            LaunchpadError::WinningTicketsExceeded => "Number of winning tickets exceeded"@,
            LaunchpadError::MustSelectBaseWinnersFirst => "Must select winners for base launchpad first"@,
            LaunchpadError::AlreadyDistributedTickets => "Already distributed tickets"@,
            LaunchpadError::UserNotFound => "User not found"@,
            LaunchpadError::InvalidOperationData => "Invalid ongoing operation data"@,
            LaunchpadError::InvalidTotalAvailableNfts => "Invalid total_available_nfts"@,
            LaunchpadError::EgldTokenHasNoNonce => "EGLD token has no nonce"@,
            LaunchpadError::InvalidEsdtTokenId => "Invalid ESDT token ID"@,
            LaunchpadError::CostZero => "Cost may not be 0"@,
            LaunchpadError::MustConfirmTicketsFirst => "Must confirm launchpad tickets before entering NFT draw"@,
            LaunchpadError::AlreadyConfirmedNft => "Already confirmed NFT"@,
            LaunchpadError::InvalidPayment => "Invalid payment"@,
            LaunchpadError::SftSetupNotComplete => "SFT setup not complete"@,
            LaunchpadError::InitialSftsAlreadyCreated => "Initial SFTs already created"@,
            LaunchpadError::AlreadySelectedNftWinners => "Already selected NFT winners"@,
            LaunchpadError::AlreadyPerformedStep => "Already performed this step"@,
            LaunchpadError::IndexOutOfRange => "index out of range"@,
            LaunchpadError::TooManyGuaranteedUsers => "Too many users with guaranteed ticket"@,
            LaunchpadError::InvalidMinConfirmed => "Invalid minimum tickets confirmed for guaranteed winning ticket"@,
            LaunchpadError::CannotChangeUnlockSchedule => "Can't change the unlock schedule"@,
            LaunchpadError::WrongReleaseSchedule => "Wrong release schedule"@,
            LaunchpadError::ReleaseEpochsNotInOrder => "The release epochs must be in order"@,
            LaunchpadError::UnlockPercentageNot100 => "Unlock percentage is not 100%"@,
            LaunchpadError::NoClaimableTokens => "User has no claimable tokens"@,
            LaunchpadError::StorageDecodeError => "storage decode error: input too short"@,
            LaunchpadError::ConfirmationStartEpochInPast => "Confirmation period start epoch cannot be in the past"@,
            LaunchpadError::StartEpochInPast => "Start epoch cannot be in the past"@,
            LaunchpadError::ClaimStartEpochInPast => "Claim start epoch cannot be in the past"@,
            LaunchpadError::StartEpochInProgressOrPassed => "Cannot change start epoch, it's either in progress or passed already"@,
            LaunchpadError::WinnerSelectionEpochBeforeConfirm => "Winner selection start epoch must be after confirm start epoch"@,
            LaunchpadError::NewTicketsNotMore => "new tickets must be higher then old tickets"@,
            LaunchpadError::InvalidLockPercentage => "Invalid lock percentage"@,
            LaunchpadError::InvalidUnlockEpoch => "Invalid unlock epoch"@,
            LaunchpadError::InvalidScAddress => "Invalid SC address"@,
        }
    }

    /// The message with which the contract reverts.
    pub fn message(&self) -> (r: &'static str)
        ensures
            r@ == self.spec_message(),
    {
        match self {
            LaunchpadError::AddTicketsPeriodPassed => "Add tickets period has passed",
            LaunchpadError::NotInConfirmationPeriod => "Not in confirmation period",
            LaunchpadError::BlacklistOnlyBeforeWinnerSelection => "May only modify blacklist before winner selection",
            LaunchpadError::NotInWinnerSelectionPeriod => "Not in winner selection period",
            LaunchpadError::NotInClaimPeriod => "Not in claim period",
            LaunchpadError::TokensAlreadyDeposited => "Tokens already deposited",
            LaunchpadError::WrongToken => "Wrong token",
            LaunchpadError::WrongAmount => "Wrong amount",
            LaunchpadError::InvalidTokenId => "Invalid token ID",
            LaunchpadError::TicketPriceZero => "Ticket price must be higher than 0",
            LaunchpadError::LaunchpadTokensPerTicketZero => "Launchpad tokens per winning ticket cannot be set to zero",
            LaunchpadError::WinningTicketsZero => "Cannot set number of winning tickets to zero",
            LaunchpadError::StartRoundInProgressOrPassed => "Cannot change start round, it's either in progress or passed already",
            LaunchpadError::StartRoundInPast => "Start round cannot be in the past",
            LaunchpadError::WinnerSelectionBeforeConfirm => "Winner selection start round must be after confirm start round",
            LaunchpadError::ClaimBeforeWinnerSelection => "Claim period must be after winner selection",
            LaunchpadError::PermissionDenied => "Permission denied",
            LaunchpadError::OnlyOwner => "Endpoint can only be called by owner",
            LaunchpadError::DuplicateEntry => "Duplicate entry for user",
            LaunchpadError::NoTickets => "You have no tickets",
            LaunchpadError::ContractPaused => "Contract is paused",
            LaunchpadError::LaunchpadTokensNotDeposited => "Launchpad tokens not deposited yet",
            LaunchpadError::Blacklisted => "You have been put into the blacklist and may not confirm tickets",
            LaunchpadError::TooManyTicketsConfirmed => "Trying to confirm too many tickets",
            LaunchpadError::WrongPaymentToken => "Wrong payment token used",
            LaunchpadError::WrongAmountSent => "Wrong amount sent",
            LaunchpadError::AlreadyClaimed => "Already claimed",
            LaunchpadError::TicketsAlreadyFiltered => "Tickets already filtered",
            LaunchpadError::MustFilterFirst => "Must filter tickets first",
            LaunchpadError::WinnersAlreadySelected => "Winners already selected",
            LaunchpadError::AnotherOperationInProgress => "Another ongoing operation is in progress",
            LaunchpadError::ArithmeticError => "panic occurred",
            LaunchpadError::MaxUnlockMilestonesExceeded => "Maximum unlock milestones entries exceeded",
            LaunchpadError::InvalidUnlockSchedule => "Invalid unlock schedule",
            LaunchpadError::InvalidPaymentToken => "Invalid payment token",
            LaunchpadError::UserAlreadyClaimedTokens => "User already claimed tokens",
            LaunchpadError::InsufficientFundsDeposited => "Insufficient funds deposited",
            LaunchpadError::AlreadyClaimedAllTokens => "Already claimed all tokens",
            LaunchpadError::TooManyGuaranteedTicketsEntries => "Number of guaranteed tickets entries exceeds maximum allowed",
            LaunchpadError::InvalidGuaranteedTicketMinConfirmed => "Invalid guaranteed ticket min confirmed tickets",
            LaunchpadError::NotEnoughWinningTickets => "Not enough winning tickets for guaranteed allocation",
            LaunchpadError::WinningTicketsExceeded => "Number of winning tickets exceeded",
            LaunchpadError::MustSelectBaseWinnersFirst => "Must select winners for base launchpad first",
            LaunchpadError::AlreadyDistributedTickets => "Already distributed tickets",
            LaunchpadError::UserNotFound => "User not found",
            LaunchpadError::InvalidOperationData => "Invalid ongoing operation data",
            LaunchpadError::InvalidTotalAvailableNfts => "Invalid total_available_nfts",
            LaunchpadError::EgldTokenHasNoNonce => "EGLD token has no nonce",
            LaunchpadError::InvalidEsdtTokenId => "Invalid ESDT token ID",
            LaunchpadError::CostZero => "Cost may not be 0",
            LaunchpadError::MustConfirmTicketsFirst => "Must confirm launchpad tickets before entering NFT draw",
            LaunchpadError::AlreadyConfirmedNft => "Already confirmed NFT",
            LaunchpadError::InvalidPayment => "Invalid payment",
            LaunchpadError::SftSetupNotComplete => "SFT setup not complete",
            LaunchpadError::InitialSftsAlreadyCreated => "Initial SFTs already created",
            LaunchpadError::AlreadySelectedNftWinners => "Already selected NFT winners",
            LaunchpadError::AlreadyPerformedStep => "Already performed this step",
            LaunchpadError::IndexOutOfRange => "index out of range",
            LaunchpadError::TooManyGuaranteedUsers => "Too many users with guaranteed ticket",
            LaunchpadError::InvalidMinConfirmed => "Invalid minimum tickets confirmed for guaranteed winning ticket",
            LaunchpadError::CannotChangeUnlockSchedule => "Can't change the unlock schedule",
            LaunchpadError::WrongReleaseSchedule => "Wrong release schedule",
            LaunchpadError::ReleaseEpochsNotInOrder => "The release epochs must be in order",
            LaunchpadError::UnlockPercentageNot100 => "Unlock percentage is not 100%",
            LaunchpadError::NoClaimableTokens => "User has no claimable tokens",
            LaunchpadError::StorageDecodeError => "storage decode error: input too short",
            LaunchpadError::ConfirmationStartEpochInPast => "Confirmation period start epoch cannot be in the past",
            LaunchpadError::StartEpochInPast => "Start epoch cannot be in the past",
            LaunchpadError::ClaimStartEpochInPast => "Claim start epoch cannot be in the past",
            LaunchpadError::StartEpochInProgressOrPassed => "Cannot change start epoch, it's either in progress or passed already",
            LaunchpadError::WinnerSelectionEpochBeforeConfirm => "Winner selection start epoch must be after confirm start epoch",
            LaunchpadError::NewTicketsNotMore => "new tickets must be higher then old tickets",
            LaunchpadError::InvalidLockPercentage => "Invalid lock percentage",
            LaunchpadError::InvalidUnlockEpoch => "Invalid unlock epoch",
            LaunchpadError::InvalidScAddress => "Invalid SC address",
        }
    }
}

} // verus!
