//! The failures that end a run, and how they are reported.

use vstd::prelude::*;

verus! {

/// The four families of failure.
#[derive(Clone, Copy, Debug, PartialEq, Eq, Structural)]
pub enum ErrorClass {
    /// A date or an address is badly written; found before any network call.
    InputFormat,
    /// A name or a block height could not be looked up.
    Resolution,
    /// The transaction listing could not be had.
    Fetch,
    /// A service credential is missing.
    Configuration,
}

/// Why a run ended without a report.
#[derive(Clone, Copy, Debug, PartialEq, Eq, Structural)]
pub enum PipelineError {
    /// A date is not a calendar date written as `DD/MM/YYYY`.
    InvalidDateFormat,
    /// The identifier has the hex prefix but is no 42-character hex address.
    InvalidAddressFormat,
    /// The identifier is neither a hex address nor a name of the name service.
    UnrecognizedIdentifierForm,
    /// The name service did not resolve the name.
    AliasResolutionFailed,
    /// No block height was found for a date.
    BlockLookupFailed,
    /// The transaction listing failed or was malformed.
    TransactionFetchFailed,
    /// The transaction listing failed for a range whose start lies after its end.
    RangeQueryFailed,
    /// A service credential is missing.
    MissingCredential,
}

impl PipelineError {
    /// The family that the failure belongs to.
    pub open spec fn spec_class(self) -> ErrorClass {
        match self {
            PipelineError::InvalidDateFormat => ErrorClass::InputFormat,
            PipelineError::InvalidAddressFormat => ErrorClass::InputFormat,
            PipelineError::UnrecognizedIdentifierForm => ErrorClass::InputFormat,
            PipelineError::AliasResolutionFailed => ErrorClass::Resolution,
            PipelineError::BlockLookupFailed => ErrorClass::Resolution,
            PipelineError::TransactionFetchFailed => ErrorClass::Fetch,
            PipelineError::RangeQueryFailed => ErrorClass::Fetch,
            PipelineError::MissingCredential => ErrorClass::Configuration,
        }
    }

    /// The family that the failure belongs to.
    #[verifier::when_used_as_spec(spec_class)]
    pub fn class(self) -> (class: ErrorClass)
        ensures
            class == self.spec_class(),
    {
        match self {
            PipelineError::InvalidDateFormat => ErrorClass::InputFormat,
            PipelineError::InvalidAddressFormat => ErrorClass::InputFormat,
            PipelineError::UnrecognizedIdentifierForm => ErrorClass::InputFormat,
            PipelineError::AliasResolutionFailed => ErrorClass::Resolution,
            PipelineError::BlockLookupFailed => ErrorClass::Resolution,
            PipelineError::TransactionFetchFailed => ErrorClass::Fetch,
            PipelineError::RangeQueryFailed => ErrorClass::Fetch,
            PipelineError::MissingCredential => ErrorClass::Configuration,
        }
    }

    /// Whether the report line is still printed, with a sentinel in place of
    /// the total: so it is for a listing that could not be had, and for no
    /// other failure.
    pub fn reports_sentinel(self) -> (sentinel: bool)
        ensures
            sentinel == (self.spec_class() == ErrorClass::Fetch),
    {
        match self {
            PipelineError::TransactionFetchFailed => true,
            PipelineError::RangeQueryFailed => true,
            _ => false,
        }
    }

    /// The text of the message for the user.
    pub open spec fn spec_message(self) -> Seq<char> {
        match self {
            PipelineError::InvalidDateFormat =>
                "The date is not valid or in invalid format. Example date: 20/12/2023"@,
            PipelineError::InvalidAddressFormat => "The address is not a valid Ethereum address."@,
            PipelineError::UnrecognizedIdentifierForm =>
                "The  address is not a valid Ethereum address."@,
            PipelineError::AliasResolutionFailed => "The ENS name is not a valid."@,
            PipelineError::BlockLookupFailed => "Error in blocknumber"@,
            PipelineError::TransactionFetchFailed => "Error in calculating cumulative gas"@,
            PipelineError::RangeQueryFailed =>
                "Error in calculating cumulative gas: the start block lies after the end block"@,
            PipelineError::MissingCredential => "RPC api key must be set."@,
        }
    }

    /// The message for the user.
    pub fn message(self) -> (text: String)
        ensures
            text@ == self.spec_message(),
    {
        match self {
            PipelineError::InvalidDateFormat =>
                "The date is not valid or in invalid format. Example date: 20/12/2023".to_owned(),
            PipelineError::InvalidAddressFormat =>
                "The address is not a valid Ethereum address.".to_owned(),
            PipelineError::UnrecognizedIdentifierForm =>
                "The  address is not a valid Ethereum address.".to_owned(),
            PipelineError::AliasResolutionFailed => "The ENS name is not a valid.".to_owned(),
            PipelineError::BlockLookupFailed => "Error in blocknumber".to_owned(),
            PipelineError::TransactionFetchFailed =>
                "Error in calculating cumulative gas".to_owned(),
            PipelineError::RangeQueryFailed =>
                "Error in calculating cumulative gas: the start block lies after the end block"
                    .to_owned(),
            PipelineError::MissingCredential => "RPC api key must be set.".to_owned(),
        }
    }
}

} // verus!
