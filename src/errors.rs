//! The failures that the ledger's operations report.

use vstd::prelude::*;

verus! {

/// Every way in which an operation can be refused.  An operation that returns
/// one of these has left the ledger exactly as it found it.
#[derive(Clone, Copy, Debug, PartialEq, Eq, Structural)]
pub enum Error {
    Unauthorized,
    Paused,
    JobCreationPaused,
    InvalidEscrow,
    InvalidStatus,
    InvalidAmount,
    InvalidDuration,
    TooManyArbiters,
    TooManyMilestones,
    TokenNotWhitelisted,
    ArbiterNotAuthorized,
    WorkNotStarted,
    MilestoneNotFound,
    AlreadySubmitted,
    DisputePeriodExpired,
    NothingToRefund,
    DeadlineNotPassed,
    EmergencyPeriodNotReached,
    BeneficiaryEqualsDepositor,
    EmptyMilestones,
    ZeroMilestoneAmount,
    MilestoneCountMismatch,
    EmptyProjectTitle,
    ValueMismatch,
    /// An amount or counter would leave the range of its fixed-width type.
    ArithmeticOverflow,
}

/// The short code under which an error is reported to callers.
pub open spec fn code_of(e: Error) -> &'static str {
    match e {
        Error::Unauthorized => "UNAUTH",
        Error::Paused => "PAUSED",
        Error::JobCreationPaused => "JOB_PAUSED",
        Error::InvalidEscrow => "INV_ESCROW",
        Error::InvalidStatus => "INV_STATUS",
        Error::InvalidAmount => "INV_AMT",
        Error::InvalidDuration => "INV_DUR",
        Error::TooManyArbiters => "TOO_ARB",
        Error::TooManyMilestones => "TOO_MS",
        Error::TokenNotWhitelisted => "TOKEN_NW",
        Error::ArbiterNotAuthorized => "ARB_NW",
        Error::WorkNotStarted => "WORK_NW",
        Error::MilestoneNotFound => "MS_NF",
        Error::AlreadySubmitted => "ALREADY",
        Error::DisputePeriodExpired => "DISP_EXP",
        Error::NothingToRefund => "NO_REFUND",
        Error::DeadlineNotPassed => "DEADLINE",
        Error::EmergencyPeriodNotReached => "EMERG_NR",
        Error::BeneficiaryEqualsDepositor => "BENEF_EQ_DEP",
        Error::EmptyMilestones => "EMPTY_MS",
        Error::ZeroMilestoneAmount => "ZERO_MS_AMT",
        Error::MilestoneCountMismatch => "MS_COUNT_MIS",
        Error::EmptyProjectTitle => "EMPTY_TITLE",
        Error::ValueMismatch => "VALUE_MIS",
        Error::ArithmeticOverflow => "OVERFLOW",
    }
}

impl Error {
    /// The short code of this error, as revert data carries it.
    pub fn code(&self) -> (r: &'static str)
        ensures
            r == code_of(*self),
    {
        match self {
            Error::Unauthorized => "UNAUTH",
            Error::Paused => "PAUSED",
            Error::JobCreationPaused => "JOB_PAUSED",
            Error::InvalidEscrow => "INV_ESCROW",
            Error::InvalidStatus => "INV_STATUS",
            Error::InvalidAmount => "INV_AMT",
            Error::InvalidDuration => "INV_DUR",
            Error::TooManyArbiters => "TOO_ARB",
            Error::TooManyMilestones => "TOO_MS",
            Error::TokenNotWhitelisted => "TOKEN_NW",
            Error::ArbiterNotAuthorized => "ARB_NW",
            Error::WorkNotStarted => "WORK_NW",
            Error::MilestoneNotFound => "MS_NF",
            Error::AlreadySubmitted => "ALREADY",
            Error::DisputePeriodExpired => "DISP_EXP",
            Error::NothingToRefund => "NO_REFUND",
            Error::DeadlineNotPassed => "DEADLINE",
            Error::EmergencyPeriodNotReached => "EMERG_NR",
            Error::BeneficiaryEqualsDepositor => "BENEF_EQ_DEP",
            Error::EmptyMilestones => "EMPTY_MS",
            Error::ZeroMilestoneAmount => "ZERO_MS_AMT",
            Error::MilestoneCountMismatch => "MS_COUNT_MIS",
            Error::EmptyProjectTitle => "EMPTY_TITLE",
            Error::ValueMismatch => "VALUE_MIS",
            Error::ArithmeticOverflow => "OVERFLOW",
        }
    }
}

} // verus!
