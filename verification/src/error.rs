//! Error kinds reported by the survey engine.
//!
//! Every precondition violation aborts the current operation with one
//! specific kind; no operation partially applies its effects.

use vstd::prelude::*;

verus! {

/// A violated rule of the survey engine itself.
#[derive(Clone, Copy, Debug, PartialEq, Eq, Structural)]
pub enum SurveyError {
    /// The command bytes do not match any operation's schema.
    InvalidInstruction,
    /// A record that the operation needs has not been initialized.
    NotInitialized,
    /// Initialization targeted a record that is already initialized.
    SurveyAlreadyExists,
    /// The survey id in the payload does not match the loaded record.
    SurveyNotFound,
    /// The participant has already received this reward component.
    AlreadyClaimed,
    /// The campaign has reached its participant limit.
    SurveyFull,
    /// The campaign is no longer active.
    SurveyClosed,
    /// The signer is not the campaign's stored owner.
    InvalidOwner,
    /// The campaign's balance cannot cover the requested movement.
    InsufficientFunds,
    /// A reward amount is not acceptable.
    InvalidRewardAmount,
    /// Checked arithmetic would overflow.
    Overflow,
    /// Metadata such as the survey id violates a size bound.
    InvalidMetadata,
}

/// Why an operation was rejected: either a required signature was missing,
/// or a survey rule was violated.
#[derive(Clone, Copy, Debug, PartialEq, Eq, Structural)]
pub enum ProcessError {
    /// A signer that the operation requires did not sign.
    MissingRequiredSignature,
    /// A rule of the survey engine was violated.
    Survey(SurveyError),
}

} // verus!
