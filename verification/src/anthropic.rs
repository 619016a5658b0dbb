use crate::error::{ContractError, ErrorCode};
use vstd::prelude::*;

verus! {

/// An error of the Anthropic Messages adapter, located under `anthropic.`.
pub fn error(code: ErrorCode, location: &str) -> (e: ContractError)
    ensures
        e.code == code,
        e.path@ == "anthropic."@ + location@,
{
    let path = "anthropic.".to_owned().concat(location);
    ContractError::new(code, path.as_str())
}

} // verus!
