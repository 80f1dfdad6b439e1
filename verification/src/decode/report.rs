//! The report of a classified error.

use vstd::prelude::*;
use crate::decode::hosterror::{category_name_of, summary_of, ClassifiedError, HostError};
use crate::taxonomy::schema::ErrorCategory;
use crate::types::report::{DiagnosticReport, Severity};

verus! {

/// The host error of a category and code.
pub open spec fn host_error_spec(category: ErrorCategory, code: u32) -> HostError {
    match category {
        ErrorCategory::Budget => HostError::Budget { code },
        ErrorCategory::Storage => HostError::Storage { code },
        ErrorCategory::Auth => HostError::Auth { code },
        ErrorCategory::Context => HostError::Context { code },
        ErrorCategory::Value => HostError::Value { code },
        ErrorCategory::Object => HostError::Object { code },
        ErrorCategory::Crypto => HostError::Crypto { code },
        ErrorCategory::Contract => HostError::Contract { code },
        ErrorCategory::Wasm => HostError::Wasm { code },
        ErrorCategory::Events => HostError::Events { code },
    }
}

/// The host error of a category and code.
pub fn host_error_of(category: ErrorCategory, code: u32) -> (e: HostError)
    ensures
        e == host_error_spec(category, code),
{
    match category {
        ErrorCategory::Budget => HostError::Budget { code },
        ErrorCategory::Storage => HostError::Storage { code },
        ErrorCategory::Auth => HostError::Auth { code },
        ErrorCategory::Context => HostError::Context { code },
        ErrorCategory::Value => HostError::Value { code },
        ErrorCategory::Object => HostError::Object { code },
        ErrorCategory::Crypto => HostError::Crypto { code },
        ErrorCategory::Contract => HostError::Contract { code },
        ErrorCategory::Wasm => HostError::Wasm { code },
        ErrorCategory::Events => HostError::Events { code },
    }
}

/// Whether `r` is the report of a classified error: its category and code,
/// named by the category and summarized as the host error of that category
/// and code, with nothing yet attributed.
pub open spec fn is_report_of(error: ClassifiedError, r: DiagnosticReport) -> bool {
    &&& r.error_category@ == category_name_of(host_error_spec(error.category, error.error_code))
    &&& r.error_code == error.error_code
    &&& r.error_name@ == category_name_of(host_error_spec(error.category, error.error_code))
    &&& r.summary@ == summary_of(host_error_spec(error.category, error.error_code))
    &&& r.detailed_explanation@ == Seq::<char>::empty()
    &&& r.severity == Severity::Error
    &&& r.contract_error is None
    &&& r.cross_contract_attribution is None
}

/// The report of a classified error: its category and code, named by the
/// category and summarized as the host error of that category and code.
pub fn build_report(error: &ClassifiedError) -> (r: DiagnosticReport)
    ensures
        is_report_of(*error, r),
{
    let host = host_error_of(error.category, error.error_code);
    let summary = host.summary();
    DiagnosticReport::new(host.category_name(), error.error_code, host.category_name(), summary.as_str())
}

} // verus!
