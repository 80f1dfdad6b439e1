//! The host error types as the decode pipeline sees them, with the
//! classification of a transaction from its status alone.

use vstd::prelude::*;
pub use crate::decode::hosterror::{parse_error_category, ClassifiedError, HostError};
use crate::error::{GratError, GratResult};
use crate::json::{clone_json, get_str_member, json_view, str_member, Json};
use crate::taxonomy::schema::ErrorCategory;
use crate::text::str_equals;

verus! {

/// Classifies a transaction from its JSON by its status alone: a successful
/// transaction has no error to classify; any other is an unclassified
/// contract error that keeps the JSON as its raw data.
pub fn classify_error(tx_data: &Json) -> (r: GratResult<ClassifiedError>)
    ensures
        str_member(json_view(*tx_data), "status"@) == Some("SUCCESS"@) ==> (r matches Err(GratError::Internal(m))
            && m@ == "Transaction succeeded — no error to classify"@),
        str_member(json_view(*tx_data), "status"@) != Some("SUCCESS"@) ==> (r matches Ok(c) && c.category
            == ErrorCategory::Contract && c.error_code == 0 && !c.is_contract_error && c.contract_id is None
            && json_view(c.raw_data) == json_view(*tx_data)),
{
    let is_success = match get_str_member(tx_data, "status") {
        Some(s) => str_equals(s.as_str(), "SUCCESS"),
        None => false,
    };
    if is_success {
        return Err(GratError::Internal(String::from_str("Transaction succeeded — no error to classify")));
    }
    Ok(ClassifiedError {
        category: ErrorCategory::Contract,
        error_code: 0,
        is_contract_error: false,
        contract_id: None,
        raw_data: clone_json(tx_data),
    })
}

} // verus!
