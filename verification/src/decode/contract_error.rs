//! The contract-specific part of a report: the resolved name and doc comment
//! of a contract's error code.

use vstd::prelude::*;
use crate::error::{error_view, ErrorView, GratResult};
use crate::text::{decimal_digits, str_equals, u64_to_decimal};
use crate::types::contract_id::{contract_id_error, ContractId};
use crate::types::report::ContractErrorInfo;

verus! {

/// Where contract-specific errors are documented.
pub const LEARN_MORE_URL: &'static str = "https://developers.stellar.org/docs/learn/smart-contracts/errors#contract-specific-errors";

/// Whether `info` is the report entry for a contract's error code, given
/// what resolution answered: the name is kept unless it is just the code in
/// decimal (resolution failed), in which case the entry has no name; the doc
/// comment is kept; the entry links to the documentation of contract errors.
pub open spec fn is_error_info(info: ContractErrorInfo, contract_id: Seq<char>, error_code: u32, resolved: (String, Option<String>)) -> bool {
    &&& info.contract_id@ == contract_id
    &&& info.error_code == error_code
    &&& (resolved.0@ == decimal_digits(error_code as nat) ==> info.error_name is None)
    &&& (resolved.0@ != decimal_digits(error_code as nat) ==> (info.error_name matches Some(n) && n@ == resolved.0@))
    &&& info.doc_comment == resolved.1
    &&& info.learn_more@ == LEARN_MORE_URL@
}

/// The report entry for a contract error, given what resolution answered.
pub fn contract_error_info(contract_id: &str, error_code: u32, resolved: (String, Option<String>)) -> (info: ContractErrorInfo)
    ensures
        is_error_info(info, contract_id@, error_code, resolved),
{
    let (error_name, doc_comment) = resolved;
    let code_text = u64_to_decimal(error_code as u64);
    let error_name_opt = if str_equals(error_name.as_str(), code_text.as_str()) {
        None
    } else {
        Some(error_name)
    };
    ContractErrorInfo {
        contract_id: String::from_str(contract_id),
        error_code,
        error_name: error_name_opt,
        doc_comment,
        learn_more: String::from_str(LEARN_MORE_URL),
    }
}

/// Checks the contract identifier before resolution, and builds the report
/// entry from what resolution answered.
pub fn resolve_with_resolution(contract_id: &str, error_code: u32, resolved: (String, Option<String>)) -> (r: GratResult<ContractErrorInfo>)
    ensures
        match contract_id_error(contract_id@) {
            Some(m) => r matches Err(e) && error_view(e) == ErrorView::InvalidContractId(m),
            None => r matches Ok(info) && is_error_info(info, contract_id@, error_code, resolved),
        },
{
    match ContractId::new(contract_id) {
        Err(e) => Err(e),
        Ok(_) => Ok(contract_error_info(contract_id, error_code, resolved)),
    }
}

} // verus!
