//! The arguments of the command-line commands, and the choices they make.

use vstd::prelude::*;
use crate::error::{GratError, GratResult};
use crate::spec::resolver::{base64_standard_decode, decode_base64};
use crate::types::report::{raw_xdr_report, DiagnosticReport, Severity};

verus! {

/// Arguments of the `decode` command.
#[derive(Debug, Clone)]
pub struct DecodeArgs {
    /// The transaction hash, or base64 XDR with `raw`.
    pub tx_hash: String,
    /// Decode the argument as raw XDR instead of fetching a transaction.
    pub raw: bool,
    /// Print the short format.
    pub short: bool,
}

/// Arguments of the `inspect` command.
#[derive(Debug, Clone)]
pub struct InspectArgs {
    pub tx_hash: String,
    /// Narrow the report to one operation.
    pub op_index: Option<usize>,
}

/// The output format of `decode`: `short` when asked for, else the
/// format chosen globally.
pub fn effective_output<'a>(short: bool, output_format: &'a str) -> (r: &'a str)
    ensures
        short ==> r@ == "short"@,
        !short ==> r@ == output_format@,
{
    if short {
        "short"
    } else {
        output_format
    }
}

/// The heading printed before report `i` of several: operations are
/// numbered from 0 by `decode` and from 1 by `inspect`.
pub fn operation_heading(i: usize, from_one: bool) -> (s: String)
    requires
        i < usize::MAX,
    ensures
        s@ == "\n=== Operation "@ + crate::text::decimal_digits(if from_one { i + 1 } else { i as int } as nat) + " ==="@,
{
    let mut s = String::from_str("\n=== Operation ");
    let n: usize = if from_one { i + 1 } else { i };
    let t = crate::text::u64_to_decimal(n as u64);
    s.append(t.as_str());
    s.append(" ===");
    s
}

/// The report of `decode --raw`: the argument is decoded as standard base64
/// and described by its byte count; text that is not base64 is an XDR error
/// carrying the decoder's message.
pub fn build_raw_xdr_report(raw_xdr: &str) -> (r: GratResult<DiagnosticReport>)
    ensures
        match base64_standard_decode(raw_xdr@) {
            Ok(bytes) => r matches Ok(report) && report.error_category@ == "raw-xdr"@
                && report.error_code == 0 && report.error_name@ == "RawXdr"@
                && report.summary@ == "Decoded raw XDR input from --raw"@
                && report.severity == Severity::Info
                && report.detailed_explanation@ == "Decoded "@ + crate::text::decimal_digits(bytes.len())
                    + " bytes from the raw base64 XDR string provided on the command line."@
                && report.contract_error is None && report.cross_contract_attribution is None,
            Err(m) => r matches Err(GratError::XdrError(msg)) && msg@ == m,
        },
{
    match decode_base64(raw_xdr) {
        Ok(bytes) => Ok(raw_xdr_report(bytes.len())),
        Err(e) => Err(GratError::XdrError(e)),
    }
}

} // verus!
