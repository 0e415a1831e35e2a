use gas_spent::config::{credentials, rpc_endpoint};
use gas_spent::error::{ErrorClass, PipelineError};

const ALL: [PipelineError; 8] = [
    PipelineError::InvalidDateFormat,
    PipelineError::InvalidAddressFormat,
    PipelineError::UnrecognizedIdentifierForm,
    PipelineError::AliasResolutionFailed,
    PipelineError::BlockLookupFailed,
    PipelineError::TransactionFetchFailed,
    PipelineError::RangeQueryFailed,
    PipelineError::MissingCredential,
];

#[test]
fn every_failure_has_its_family() {
    let classes: Vec<ErrorClass> = ALL.iter().map(|error| error.class()).collect();
    assert_eq!(
        classes,
        vec![
            ErrorClass::InputFormat,
            ErrorClass::InputFormat,
            ErrorClass::InputFormat,
            ErrorClass::Resolution,
            ErrorClass::Resolution,
            ErrorClass::Fetch,
            ErrorClass::Fetch,
            ErrorClass::Configuration,
        ]
    );
}

#[test]
fn only_a_failed_fetch_shows_the_sentinel() {
    for error in ALL {
        assert_eq!(error.reports_sentinel(), error.class() == ErrorClass::Fetch);
    }
}

#[test]
fn every_failure_has_its_message() {
    assert_eq!(
        PipelineError::InvalidDateFormat.message(),
        "The date is not valid or in invalid format. Example date: 20/12/2023"
    );
    assert_eq!(
        PipelineError::InvalidAddressFormat.message(),
        "The address is not a valid Ethereum address."
    );
    assert_eq!(
        PipelineError::UnrecognizedIdentifierForm.message(),
        "The  address is not a valid Ethereum address."
    );
    assert_eq!(PipelineError::AliasResolutionFailed.message(), "The ENS name is not a valid.");
    assert_eq!(PipelineError::BlockLookupFailed.message(), "Error in blocknumber");
    assert_eq!(
        PipelineError::TransactionFetchFailed.message(),
        "Error in calculating cumulative gas"
    );
    assert_eq!(
        PipelineError::RangeQueryFailed.message(),
        "Error in calculating cumulative gas: the start block lies after the end block"
    );
    assert_eq!(PipelineError::MissingCredential.message(), "RPC api key must be set.");
}

#[test]
fn both_keys_make_the_credentials() {
    let keys = credentials(Some("node".to_string()), Some("explorer".to_string()))
        .expect("credentials");
    assert_eq!(keys.rpc_api_key, "node");
    assert_eq!(keys.explorer_api_key, "explorer");
}

#[test]
fn a_missing_key_is_a_failure_of_the_configuration() {
    for (rpc, explorer) in [
        (None, Some("explorer".to_string())),
        (Some("node".to_string()), None),
        (None, None),
    ] {
        match credentials(rpc, explorer) {
            Err(error) => {
                assert_eq!(error, PipelineError::MissingCredential);
                assert_eq!(error.class(), ErrorClass::Configuration);
            }
            Ok(keys) => panic!("credentials from nothing: {keys:?}"),
        }
    }
}

#[test]
fn the_endpoint_ends_with_the_key() {
    assert_eq!(rpc_endpoint("abc123"), "https://eth-mainnet.g.alchemy.com/v2/abc123");
    assert_eq!(rpc_endpoint(""), "https://eth-mainnet.g.alchemy.com/v2/");
}
