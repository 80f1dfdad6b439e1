//! The parts of a diagnostic report that the library fills in.

use vstd::prelude::*;

verus! {

/// How serious a decoded error is.
#[derive(Debug, Clone, Copy, PartialEq, Eq)]
pub enum Severity {
    Fatal,
    Error,
    Warning,
    Info,
}

/// A contract-specific error resolved against the contract's spec.
#[derive(Debug, Clone, PartialEq, Eq)]
pub struct ContractErrorInfo {
    pub contract_id: String,
    pub error_code: u32,
    pub error_name: Option<String>,
    pub doc_comment: Option<String>,
    pub learn_more: String,
}

/// Where in a cross-contract call tree a failure originated.
#[derive(Debug, Clone, PartialEq, Eq)]
pub struct FailureAttribution {
    pub origin_description: String,
    pub contract_address: String,
    pub function_name: Option<String>,
    pub call_depth: usize,
}

/// A decoded diagnosis of a failed transaction.
#[derive(Debug, Clone, PartialEq, Eq)]
pub struct DiagnosticReport {
    pub error_category: String,
    pub error_code: u32,
    pub error_name: String,
    pub summary: String,
    pub detailed_explanation: String,
    pub severity: Severity,
    pub contract_error: Option<ContractErrorInfo>,
    pub cross_contract_attribution: Option<FailureAttribution>,
}

impl DiagnosticReport {
    /// A report of an error: its category, code, name and summary, at error
    /// severity, with no explanation or contract details yet.
    pub fn new(error_category: &str, error_code: u32, error_name: &str, summary: &str) -> (r: Self)
        ensures
            r.error_category@ == error_category@,
            r.error_code == error_code,
            r.error_name@ == error_name@,
            r.summary@ == summary@,
            r.detailed_explanation@ == Seq::<char>::empty(),
            r.severity == Severity::Error,
            r.contract_error is None,
            r.cross_contract_attribution is None,
    {
        DiagnosticReport {
            error_category: String::from_str(error_category),
            error_code,
            error_name: String::from_str(error_name),
            summary: String::from_str(summary),
            detailed_explanation: String::new(),
            severity: Severity::Error,
            contract_error: None,
            cross_contract_attribution: None,
        }
    }
}

/// A report of raw XDR given on the command line: informational, with an
/// explanation that gives the number of bytes decoded.
pub fn raw_xdr_report(byte_count: usize) -> (r: DiagnosticReport)
    ensures
        r.error_category@ == "raw-xdr"@,
        r.error_code == 0,
        r.error_name@ == "RawXdr"@,
        r.summary@ == "Decoded raw XDR input from --raw"@,
        r.severity == Severity::Info,
        r.detailed_explanation@ == "Decoded "@ + crate::text::decimal_digits(byte_count as nat)
            + " bytes from the raw base64 XDR string provided on the command line."@,
        r.contract_error is None,
        r.cross_contract_attribution is None,
{
    let mut report = DiagnosticReport::new("raw-xdr", 0, "RawXdr", "Decoded raw XDR input from --raw");
    report.severity = Severity::Info;
    let mut text = String::from_str("Decoded ");
    let n = crate::text::u64_to_decimal(byte_count as u64);
    text.append(n.as_str());
    text.append(" bytes from the raw base64 XDR string provided on the command line.");
    report.detailed_explanation = text;
    report
}

} // verus!
