//! Reading a contract's specification out of its WASM binary.

use vstd::prelude::*;
use crate::error::{error_view, ErrorView, GratError, GratResult};
use crate::text::{str_equals, string_from_utf8_lossy, utf8_lossy};
use crate::xdr::XDR_READ_DEPTH;
use stellar_xdr::curr as sx;
use stellar_xdr::curr::ReadXdr;

verus! {

/// A variant of a contract's error enum.
#[derive(Debug, Clone)]
pub struct ContractErrorEntry {
    pub code: u32,
    pub name: String,
    pub doc: Option<String>,
}

/// A contract function's signature.
#[derive(Debug, Clone)]
pub struct ContractFunction {
    pub name: String,
    /// Parameter names and types.
    pub params: Vec<(String, String)>,
    pub return_type: String,
    pub doc: Option<String>,
}

/// A contract's specification.
#[derive(Debug, Clone)]
pub struct ContractSpec {
    pub errors: Vec<ContractErrorEntry>,
    pub functions: Vec<ContractFunction>,
    pub name: Option<String>,
    pub version: Option<String>,
}

/// One payload of a WASM binary: a custom section with its name and data,
/// or any other payload.
pub enum WasmPayload {
    Custom { name: String, data: Vec<u8> },
    Other,
}

/// The payloads of a WASM binary, in order, up to the first malformed one,
/// and the message of that one's error.
pub struct WasmScan {
    pub payloads: Vec<WasmPayload>,
    pub error: Option<String>,
}

/// The view of a payload: the name and data of a custom section.
pub open spec fn payload_view(p: WasmPayload) -> Option<(Seq<char>, Seq<u8>)> {
    match p {
        WasmPayload::Custom { name, data } => Some((name@, data@)),
        WasmPayload::Other => None,
    }
}

/// The view of a scan.
pub open spec fn scan_view(s: WasmScan) -> (Seq<Option<(Seq<char>, Seq<u8>)>>, Option<Seq<char>>) {
    (
        s.payloads@.map_values(|p: WasmPayload| payload_view(p)),
        match s.error {
            Some(e) => Some(e@),
            None => None,
        },
    )
}

/// What `wasmparser::Parser::parse_all` yields for a binary: the payloads up
/// to the first error, and that error's message.
pub uninterp spec fn wasm_payloads(bytes: Seq<u8>) -> (Seq<Option<(Seq<char>, Seq<u8>)>>, Option<Seq<char>>);

/// Reads the payloads of a WASM binary with `wasmparser::Parser::parse_all`,
/// keeping the name and data of custom sections. The claim: the scan is
/// `wasm_payloads(bytes)`, a function of the bytes.
#[verifier::external_body]
fn scan_wasm(wasm: &[u8]) -> (r: WasmScan)
    ensures
        scan_view(r) == wasm_payloads(wasm@),
{
    let mut payloads = Vec::new();
    for payload in wasmparser::Parser::new(0).parse_all(wasm) {
        match payload {
            Ok(wasmparser::Payload::CustomSection(s)) => payloads.push(
                WasmPayload::Custom { name: s.name().to_string(), data: s.data().to_vec() },
            ),
            Ok(_) => payloads.push(WasmPayload::Other),
            Err(e) => return WasmScan { payloads, error: Some(e.to_string()) },
        }
    }
    WasmScan { payloads, error: None }
}

/// The data of the first `contractspecv0` custom section, or the error: the
/// parser's, when it failed before such a section, or that none was found.
pub open spec fn spec_section(payloads: Seq<Option<(Seq<char>, Seq<u8>)>>, error: Option<Seq<char>>) -> Result<Seq<u8>, ErrorView>
    decreases payloads.len(),
{
    if payloads.len() == 0 {
        match error {
            Some(e) => Err(ErrorView::SpecError("WASM parse error: "@ + e)),
            None => Err(ErrorView::SpecError("contractspecv0 custom section not found"@)),
        }
    } else {
        match payloads[0] {
            Some(section) => if section.0 == "contractspecv0"@ {
                Ok(section.1)
            } else {
                spec_section(payloads.drop_first(), error)
            },
            None => spec_section(payloads.drop_first(), error),
        }
    }
}

/// The view of a byte-vector result.
pub open spec fn bytes_result_view(r: GratResult<Vec<u8>>) -> Result<Seq<u8>, ErrorView> {
    match r {
        Ok(v) => Ok(v@),
        Err(e) => Err(error_view(e)),
    }
}

/// Extracts custom sections from WASM binaries.
pub struct SpecParser;

impl SpecParser {
    /// The data of the first `contractspecv0` custom section of a WASM binary.
    pub fn extract_spec(wasm_bytes: &[u8]) -> (r: GratResult<Vec<u8>>)
        ensures
            bytes_result_view(r) == spec_section(wasm_payloads(wasm_bytes@).0, wasm_payloads(wasm_bytes@).1),
    {
        let scan = scan_wasm(wasm_bytes);
        let ghost pv = scan_view(scan).0;
        let ghost err = scan_view(scan).1;
        let mut i: usize = 0;
        assert(pv.skip(0) =~= pv);
        while i < scan.payloads.len()
            invariant
                i <= scan.payloads@.len(),
                pv == scan.payloads@.map_values(|p: WasmPayload| payload_view(p)),
                scan_view(scan) == wasm_payloads(wasm_bytes@),
                pv == scan_view(scan).0,
                err == scan_view(scan).1,
                spec_section(pv, err) == spec_section(pv.skip(i as int), err),
            decreases scan.payloads@.len() - i,
        {
            proof {
                assert(pv.skip(i as int).drop_first() =~= pv.skip(i + 1));
                assert(pv.skip(i as int)[0] == payload_view(scan.payloads@[i as int]));
            }
            match &scan.payloads[i] {
                WasmPayload::Custom { name, data } => {
                    if str_equals(name.as_str(), "contractspecv0") {
                        assert(pv.skip(i as int).len() > 0);
                        assert(pv.skip(i as int)[0] == Some((name@, data@)));
                        assert(spec_section(pv.skip(i as int), err) == Ok::<Seq<u8>, ErrorView>(data@));
                        let d = data.clone();
                        assert(d@ =~= data@);
                        return Ok(d);
                    }
                },
                WasmPayload::Other => {},
            }
            i = i + 1;
        }
        assert(pv.skip(i as int).len() == 0);
        match &scan.error {
            Some(e) => {
                let mut msg = String::from_str("WASM parse error: ");
                msg.append(e.as_str());
                Err(GratError::SpecError(msg))
            },
            None => Err(GratError::SpecError(String::from_str("contractspecv0 custom section not found"))),
        }
    }
}

/// A case of a contract's error enum, as the specification holds it.
#[derive(Debug)]
pub struct SpecErrorCase {
    pub name: Vec<u8>,
    pub value: u32,
    pub doc: Vec<u8>,
}

/// An input of a contract function: its name, and the kind of its type.
#[derive(Debug)]
pub struct SpecInput {
    pub name: Vec<u8>,
    pub kind: String,
}

/// An entry of a contract's specification, as far as the library reads it:
/// an error enum, a function, or any other definition.
#[derive(Debug)]
pub enum SpecEntry {
    ErrorEnum { name: Vec<u8>, cases: Vec<SpecErrorCase> },
    Function { name: Vec<u8>, doc: Vec<u8>, inputs: Vec<SpecInput>, output: Option<String> },
    Other,
}

/// What `stellar_xdr` reads from the data of a `contractspecv0` section as
/// a stream of `ScSpecEntry` values with nesting limited to `depth`: each
/// entry read, or the message of the read that failed, in order; the stream
/// is not read past a failed entry.
pub uninterp spec fn spec_entries_of(section: Seq<u8>, depth: u32) -> Seq<Result<SpecEntry, Seq<char>>>;

/// The view of the reads of a stream of entries.
pub open spec fn reads_view(rs: Seq<Result<SpecEntry, String>>) -> Seq<Result<SpecEntry, Seq<char>>> {
    rs.map_values(|r: Result<SpecEntry, String>| match r {
        Ok(e) => Ok(e),
        Err(m) => Err(m@),
    })
}

/// Reads the data of a `contractspecv0` section as a stream of
/// `ScSpecEntry` values with `stellar_xdr`'s `ReadXdr::read_xdr_iter`
/// (nesting limited to `depth`, no length limit), taking each into the
/// model. A failed read leaves the stream at an undefined place, so reading
/// ends with it. The claim: the outcome is `spec_entries_of(section, depth)`,
/// a function of the bytes and the limit.
#[verifier::external_body]
fn read_spec_entries(section: &[u8], depth: u32) -> (r: Vec<Result<SpecEntry, String>>)
    ensures
        reads_view(r@) == spec_entries_of(section@, depth),
{
    let mut reader = sx::Limited::new(std::io::Cursor::new(section), sx::Limits::depth(depth));
    let mut reads = Vec::new();
    for e in sx::ScSpecEntry::read_xdr_iter(&mut reader) {
        let failed = e.is_err();
        reads.push(e.map(|e| spec_entry_model(&e)).map_err(|err| err.to_string()));
        if failed {
            break;
        }
    }
    reads
}

/// The entries read before the first failed read.
pub open spec fn entries_before_failure(rs: Seq<Result<SpecEntry, Seq<char>>>) -> Seq<SpecEntry>
    decreases rs.len(),
{
    if rs.len() == 0 {
        Seq::empty()
    } else {
        match rs[0] {
            Ok(e) => seq![e] + entries_before_failure(rs.drop_first()),
            Err(_) => Seq::empty(),
        }
    }
}

/// The entries read before the first failed read.
fn take_entries_before_failure(reads: Vec<Result<SpecEntry, String>>) -> (r: Vec<SpecEntry>)
    ensures
        r@ == entries_before_failure(reads_view(reads@)),
{
    let ghost total = entries_before_failure(reads_view(reads@));
    let mut rest = reads;
    let mut out: Vec<SpecEntry> = Vec::new();
    while rest.len() > 0
        invariant
            total == entries_before_failure(reads_view(reads@)),
            total == out@ + entries_before_failure(reads_view(rest@)),
        decreases rest@.len(),
    {
        let ghost before = rest@;
        let first = rest.remove(0);
        proof {
            assert(reads_view(rest@) =~= reads_view(before).drop_first());
            assert(reads_view(before)[0] == match first {
                Ok(e) => Ok::<SpecEntry, Seq<char>>(e),
                Err(m) => Err::<SpecEntry, Seq<char>>(m@),
            });
        }
        match first {
            Ok(e) => {
                let ghost prev = out@;
                out.push(e);
                assert(out@ + entries_before_failure(reads_view(rest@)) =~= prev + (seq![e]
                    + entries_before_failure(reads_view(rest@))));
            },
            Err(_) => {
                assert(entries_before_failure(reads_view(before)) =~= Seq::<SpecEntry>::empty());
                assert(total =~= out@);
                return out;
            },
        }
    }
    assert(total =~= out@);
    out
}

/// Takes a `stellar_xdr` specification entry into the model: an error enum
/// with its name and cases, a function (see `spec_function_model`), or
/// another definition. Used only inside `read_spec_entries`.
#[verifier::external_body]
fn spec_entry_model(e: &sx::ScSpecEntry) -> SpecEntry {
    match e {
        sx::ScSpecEntry::UdtErrorEnumV0(u) => SpecEntry::ErrorEnum {
            name: u.name.to_vec(),
            cases: u.cases.iter().map(|c| SpecErrorCase { name: c.name.to_vec(), value: c.value, doc: c.doc.to_vec() }).collect(),
        },
        sx::ScSpecEntry::FunctionV0(f) => spec_function_model(f),
        _ => SpecEntry::Other,
    }
}

/// Takes a `stellar_xdr` function specification into the model: its name,
/// doc, inputs with the kind of each type (`ScSpecTypeDef::name`), and the
/// kind of its output type, if it has one. Used only inside `spec_entry_model`.
#[verifier::external_body]
fn spec_function_model(f: &sx::ScSpecFunctionV0) -> SpecEntry {
    SpecEntry::Function {
        name: f.name.0.to_vec(),
        doc: f.doc.to_vec(),
        inputs: f.inputs.iter().map(|i| SpecInput { name: i.name.to_vec(), kind: i.type_.name().to_string() }).collect(),
        output: f.outputs.first().map(|t| t.name().to_string()),
    }
}

/// A doc comment: none when it is empty, its text otherwise.
pub open spec fn doc_text(b: Seq<u8>) -> Option<Seq<char>> {
    if b.len() == 0 {
        None
    } else {
        Some(utf8_lossy(b))
    }
}

/// The view of an error variant: code, `Enum::Case` name, doc comment.
pub type ErrorEntryView = (u32, Seq<char>, Option<Seq<char>>);

/// The error variants of one error enum: one per case, in order, named
/// `Enum::Case`.
pub open spec fn case_views(enum_name: Seq<u8>, cases: Seq<SpecErrorCase>) -> Seq<ErrorEntryView> {
    cases.map_values(|c: SpecErrorCase| (c.value, utf8_lossy(enum_name) + "::"@ + utf8_lossy(c.name@), doc_text(c.doc@)))
}

/// The error variants of a specification's entries, enum after enum.
pub open spec fn spec_errors(entries: Seq<SpecEntry>) -> Seq<ErrorEntryView>
    decreases entries.len(),
{
    if entries.len() == 0 {
        Seq::empty()
    } else {
        spec_errors(entries.drop_last()) + match entries.last() {
            SpecEntry::ErrorEnum { name, cases } => case_views(name@, cases@),
            _ => Seq::empty(),
        }
    }
}

/// The view of a function: name, parameters with their types, return type
/// (`Void` when it returns nothing), doc comment.
pub type FunctionView = (Seq<char>, Seq<(Seq<char>, Seq<char>)>, Seq<char>, Option<Seq<char>>);

/// The parameters of a function's inputs.
pub open spec fn input_views(inputs: Seq<SpecInput>) -> Seq<(Seq<char>, Seq<char>)> {
    inputs.map_values(|i: SpecInput| (utf8_lossy(i.name@), i.kind@))
}

/// The return type of a function with this output.
pub open spec fn output_text(output: Option<String>) -> Seq<char> {
    match output {
        Some(t) => t@,
        None => "Void"@,
    }
}

/// The functions of a specification's entries, in order.
pub open spec fn spec_functions(entries: Seq<SpecEntry>) -> Seq<FunctionView>
    decreases entries.len(),
{
    if entries.len() == 0 {
        Seq::empty()
    } else {
        spec_functions(entries.drop_last()) + match entries.last() {
            SpecEntry::Function { name, doc, inputs, output } => seq![
                (utf8_lossy(name@), input_views(inputs@), output_text(output), doc_text(doc@)),
            ],
            _ => Seq::empty(),
        }
    }
}

/// The view of an optional text.
pub open spec fn opt_text(s: Option<String>) -> Option<Seq<char>> {
    match s {
        Some(t) => Some(t@),
        None => None,
    }
}

/// The views of error variants.
pub open spec fn errors_view(s: Seq<ContractErrorEntry>) -> Seq<ErrorEntryView> {
    s.map_values(|e: ContractErrorEntry| (e.code, e.name@, opt_text(e.doc)))
}

/// The views of functions.
pub open spec fn functions_view(s: Seq<ContractFunction>) -> Seq<FunctionView> {
    s.map_values(|f: ContractFunction| (f.name@, f.params@.map_values(|p: (String, String)| (p.0@, p.1@)), f.return_type@, opt_text(f.doc)))
}

/// A doc comment as text, none when empty.
fn doc_of(b: &Vec<u8>) -> (r: Option<String>)
    ensures
        opt_text(r) == doc_text(b@),
{
    if b.len() == 0 {
        None
    } else {
        Some(string_from_utf8_lossy(b.as_slice()))
    }
}

/// Appends the error variants of one error enum.
fn push_error_cases(errors: &mut Vec<ContractErrorEntry>, enum_name: &Vec<u8>, cases: &Vec<SpecErrorCase>)
    ensures
        errors_view(final(errors)@) == errors_view(old(errors)@) + case_views(enum_name@, cases@),
{
    let ghost start = errors_view(errors@);
    let prefix = string_from_utf8_lossy(enum_name.as_slice());
    let mut i: usize = 0;
    while i < cases.len()
        invariant
            i <= cases@.len(),
            prefix@ == utf8_lossy(enum_name@),
            errors_view(errors@) == start + case_views(enum_name@, cases@.take(i as int)),
        decreases cases@.len() - i,
    {
        let c = &cases[i];
        let mut name = prefix.clone();
        name.append("::");
        let case_name = string_from_utf8_lossy(c.name.as_slice());
        name.append(case_name.as_str());
        let entry = ContractErrorEntry { code: c.value, name, doc: doc_of(&c.doc) };
        let ghost prev = errors@;
        errors.push(entry);
        proof {
            assert(errors_view(errors@) =~= errors_view(prev).push((entry.code, entry.name@, opt_text(entry.doc))));
            assert(case_views(enum_name@, cases@.take(i + 1)) =~= case_views(enum_name@, cases@.take(i as int)).push(
                case_views(enum_name@, cases@)[i as int],
            ));
        }
        i = i + 1;
    }
    assert(cases@.take(i as int) =~= cases@);
}

/// The function of a specification entry.
fn function_of(name: &Vec<u8>, doc: &Vec<u8>, inputs: &Vec<SpecInput>, output: &Option<String>) -> (f: ContractFunction)
    ensures
        functions_view(seq![f]) == seq![(utf8_lossy(name@), input_views(inputs@), output_text(*output), doc_text(doc@))],
{
    let mut params: Vec<(String, String)> = Vec::new();
    let mut i: usize = 0;
    while i < inputs.len()
        invariant
            i <= inputs@.len(),
            params@.map_values(|p: (String, String)| (p.0@, p.1@)) == input_views(inputs@.take(i as int)),
        decreases inputs@.len() - i,
    {
        let input = &inputs[i];
        let pair = (string_from_utf8_lossy(input.name.as_slice()), input.kind.clone());
        let ghost prev = params@;
        params.push(pair);
        proof {
            assert(params@.map_values(|p: (String, String)| (p.0@, p.1@)) =~= prev.map_values(
                |p: (String, String)| (p.0@, p.1@),
            ).push((pair.0@, pair.1@)));
            assert(input_views(inputs@.take(i + 1)) =~= input_views(inputs@.take(i as int)).push(
                input_views(inputs@)[i as int],
            ));
        }
        i = i + 1;
    }
    assert(inputs@.take(i as int) =~= inputs@);
    let return_type = match output {
        Some(t) => t.clone(),
        None => String::from_str("Void"),
    };
    let f = ContractFunction { name: string_from_utf8_lossy(name.as_slice()), params, return_type, doc: doc_of(doc) };
    assert(functions_view(seq![f]) =~= seq![(utf8_lossy(name@), input_views(inputs@), output_text(*output), doc_text(doc@))]);
    f
}

/// Reads a contract's specification out of its WASM binary: the entries of
/// its `contractspecv0` section are decoded in order, up to the first that
/// fails to decode; each error enum gives one error variant per case, named
/// `Enum::Case`, with the case's code and doc, and each function its
/// signature. A binary without that section is an error.
pub fn decode_contract_spec(wasm_bytes: &[u8]) -> (r: GratResult<ContractSpec>)
    ensures
        match spec_section(wasm_payloads(wasm_bytes@).0, wasm_payloads(wasm_bytes@).1) {
            Ok(section) => r matches Ok(s) && errors_view(s.errors@) == spec_errors(
                entries_before_failure(spec_entries_of(section, XDR_READ_DEPTH)),
            ) && functions_view(s.functions@) == spec_functions(entries_before_failure(spec_entries_of(section, XDR_READ_DEPTH)))
                && s.name is None && s.version is None,
            Err(e) => r matches Err(err) && error_view(err) == e,
        },
{
    let section = match SpecParser::extract_spec(wasm_bytes) {
        Ok(s) => s,
        Err(e) => {
            return Err(e);
        },
    };
    let entries = take_entries_before_failure(read_spec_entries(section.as_slice(), XDR_READ_DEPTH));
    let mut errors: Vec<ContractErrorEntry> = Vec::new();
    let mut functions: Vec<ContractFunction> = Vec::new();
    let mut i: usize = 0;
    while i < entries.len()
        invariant
            i <= entries@.len(),
            errors_view(errors@) == spec_errors(entries@.take(i as int)),
            functions_view(functions@) == spec_functions(entries@.take(i as int)),
        decreases entries@.len() - i,
    {
        proof {
            assert(entries@.take(i + 1).drop_last() =~= entries@.take(i as int));
            assert(entries@.take(i + 1).last() == entries@[i as int]);
        }
        match &entries[i] {
            SpecEntry::ErrorEnum { name, cases } => {
                push_error_cases(&mut errors, name, cases);
                assert(spec_functions(entries@.take(i + 1)) =~= spec_functions(entries@.take(i as int)));
            },
            SpecEntry::Function { name, doc, inputs, output } => {
                let f = function_of(name, doc, inputs, output);
                let ghost prev = functions@;
                functions.push(f);
                proof {
                    assert(functions_view(functions@) =~= functions_view(prev) + functions_view(seq![f]));
                }
                assert(spec_errors(entries@.take(i + 1)) =~= spec_errors(entries@.take(i as int)));
            },
            SpecEntry::Other => {
                assert(spec_errors(entries@.take(i + 1)) =~= spec_errors(entries@.take(i as int)));
                assert(spec_functions(entries@.take(i + 1)) =~= spec_functions(entries@.take(i as int)));
            },
        }
        i = i + 1;
    }
    assert(entries@.take(i as int) =~= entries@);
    Ok(ContractSpec { errors, functions, name: None, version: None })
}

/// The first error variant with the given code, if any.
pub open spec fn first_error_with(s: Seq<ErrorEntryView>, code: u32) -> Option<ErrorEntryView>
    decreases s.len(),
{
    if s.len() == 0 {
        None
    } else if s[0].0 == code {
        Some(s[0])
    } else {
        first_error_with(s.drop_first(), code)
    }
}

/// The variant at `i` is the first with its code.
pub proof fn lemma_first_error_found(s: Seq<ErrorEntryView>, code: u32, i: int)
    requires
        0 <= i < s.len(),
        s[i].0 == code,
        forall|j: int| 0 <= j < i ==> #[trigger] s[j].0 != code,
    ensures
        first_error_with(s, code) == Some(s[i]),
    decreases i,
{
    if i > 0 {
        let rest = s.drop_first();
        assert forall|j: int| 0 <= j < i - 1 implies #[trigger] rest[j].0 != code by {
            assert(rest[j] == s[j + 1]);
        }
        lemma_first_error_found(rest, code, i - 1);
    }
}

/// No variant has the code.
pub proof fn lemma_first_error_absent(s: Seq<ErrorEntryView>, code: u32)
    requires
        forall|j: int| 0 <= j < s.len() ==> #[trigger] s[j].0 != code,
    ensures
        first_error_with(s, code) is None,
    decreases s.len(),
{
    if s.len() > 0 {
        let rest = s.drop_first();
        assert forall|j: int| 0 <= j < rest.len() implies #[trigger] rest[j].0 != code by {
            assert(rest[j] == s[j + 1]);
        }
        lemma_first_error_absent(rest, code);
    }
}

/// The first error variant of a specification with the given code.
pub fn resolve_error_code(spec: &ContractSpec, error_code: u32) -> (r: Option<&ContractErrorEntry>)
    ensures
        match r {
            Some(e) => exists|i: int|
                0 <= i < spec.errors@.len() && spec.errors@[i] == *e && e.code == error_code && forall|j: int|
                    0 <= j < i ==> #[trigger] spec.errors@[j].code != error_code,
            None => forall|i: int| 0 <= i < spec.errors@.len() ==> #[trigger] spec.errors@[i].code != error_code,
        },
{
    let mut i: usize = 0;
    while i < spec.errors.len()
        invariant
            i <= spec.errors@.len(),
            forall|j: int| 0 <= j < i ==> #[trigger] spec.errors@[j].code != error_code,
        decreases spec.errors@.len() - i,
    {
        if spec.errors[i].code == error_code {
            assert(spec.errors@[i as int] == spec.errors[i as int]);
            return Some(&spec.errors[i]);
        }
        i = i + 1;
    }
    None
}

} // verus!
