//! The two service credentials, and the endpoint that is made of one of
//! them.

use crate::error::PipelineError;
use vstd::prelude::*;
use vstd::string::*;

verus! {

/// The keys of the two services that a run asks.
#[derive(Debug)]
pub struct Credentials {
    /// The key of the node that resolves names.
    pub rpc_api_key: String,
    /// The key of the block explorer.
    pub explorer_api_key: String,
}

/// The credentials, where both keys are there. A run needs both before it
/// does anything else.
pub fn credentials(rpc_api_key: Option<String>, explorer_api_key: Option<String>) -> (found:
    Result<Credentials, PipelineError>)
    ensures
        match found {
            Ok(keys) => rpc_api_key == Some(keys.rpc_api_key) && explorer_api_key == Some(
                keys.explorer_api_key,
            ),
            Err(error) => error == PipelineError::MissingCredential && (rpc_api_key is None
                || explorer_api_key is None),
        },
{
    match (rpc_api_key, explorer_api_key) {
        (Some(rpc_api_key), Some(explorer_api_key)) => Ok(
            Credentials { rpc_api_key, explorer_api_key },
        ),
        _ => Err(PipelineError::MissingCredential),
    }
}

/// The address of the node, which ends with its key.
pub fn rpc_endpoint(api_key: &str) -> (url: String)
    ensures
        url@ == "https://eth-mainnet.g.alchemy.com/v2/"@ + api_key@,
{
    let mut url = "https://eth-mainnet.g.alchemy.com/v2/".to_owned();
    url.append(api_key);
    url
}

} // verus!
