//! Signatures in Soroban authorization entries, shown as hex.

use vstd::prelude::*;
use crate::decode::cross_contract::bytes_to_hex;
use crate::text::{decimal_digits, hex_bytes, str_equals, u64_to_decimal, xdr_string_to_string, xdr_text};
use crate::spec::resolver::{base64_standard_decode, decode_base64};
use crate::xdr::{auth_entry_model, XDR_READ_DEPTH, ScMapEntry, ScValue, AuthorizationEntry, SorobanCredentials};
use stellar_xdr::curr as sx;
use stellar_xdr::curr::ReadXdr;

verus! {

/// The text of a signature: lowercase hex of its 64 bytes, or a label
/// saying why it is not a signature.
pub open spec fn signature_text(b: Seq<u8>) -> Seq<char> {
    if b.len() == 0 {
        "<invalid: empty signature>"@
    } else if b.len() != 64 {
        "<invalid: expected 64 bytes, got "@ + decimal_digits(b.len()) + ">"@
    } else {
        hex_bytes(b)
    }
}

/// Shows signature bytes as lowercase hex, or labels them invalid when they
/// are empty or not 64 bytes long.
pub fn decode_signature_bytes(bytes: &[u8]) -> (s: String)
    ensures
        s@ == signature_text(bytes@),
{
    if bytes.len() == 0 {
        return String::from_str("<invalid: empty signature>");
    }
    if bytes.len() != 64 {
        let mut s = String::from_str("<invalid: expected 64 bytes, got ");
        let n = u64_to_decimal(bytes.len() as u64);
        s.append(n.as_str());
        s.append(">");
        return s;
    }
    let h = bytes_to_hex(bytes);
    h
}

/// The text of a map key, for symbols and strings.
pub open spec fn key_text(k: ScValue) -> Option<Seq<char>> {
    match k {
        ScValue::Symbol(b) => Some(xdr_text(b@)),
        ScValue::String(b) => Some(xdr_text(b@)),
        _ => None,
    }
}

/// The signatures held in a value: a byte string is one signature; a map
/// contributes the signatures under its `signature` keys, and a vector those
/// of its items, in order; any other value holds none.
pub open spec fn signatures_in(v: ScValue) -> Seq<Seq<char>>
    decreases v,
{
    match v {
        ScValue::Bytes(b) => seq![signature_text(b@)],
        ScValue::MapVal(Some(entries)) => map_signatures(entries@),
        ScValue::Vec(Some(items)) => items_signatures(items@),
        _ => Seq::empty(),
    }
}

/// The signatures held in a sequence of values, in order.
pub open spec fn items_signatures(items: Seq<ScValue>) -> Seq<Seq<char>>
    decreases items,
{
    if items.len() == 0 {
        Seq::empty()
    } else {
        items_signatures(items.subrange(0, items.len() - 1)) + signatures_in(items[items.len() - 1])
    }
}

/// The signatures under the `signature` keys of map entries, in order.
pub open spec fn map_signatures(entries: Seq<ScMapEntry>) -> Seq<Seq<char>>
    decreases entries,
{
    if entries.len() == 0 {
        Seq::empty()
    } else {
        let last = entries[entries.len() - 1];
        map_signatures(entries.subrange(0, entries.len() - 1)) + if key_text(last.key) == Some(
            "signature"@,
        ) {
            signatures_in(last.val)
        } else {
            Seq::empty()
        }
    }
}

/// The views of a sequence of strings.
pub open spec fn texts_view(s: Seq<String>) -> Seq<Seq<char>> {
    s.map_values(|t: String| t@)
}

/// Appends the strings of `more` to `out`.
fn append_texts(out: &mut Vec<String>, more: Vec<String>)
    ensures
        texts_view(final(out)@) == texts_view(old(out)@) + texts_view(more@),
{
    let mut more = more;
    let ghost a = out@;
    let ghost b = more@;
    out.append(&mut more);
    assert(texts_view(out@) =~= texts_view(a) + texts_view(b));
}

/// Whether a map key is `signature`.
fn is_signature_key(k: &ScValue) -> (b: bool)
    ensures
        b == (key_text(*k) == Some("signature"@)),
{
    match k {
        ScValue::Symbol(s) => {
            let t = xdr_string_to_string(s.as_slice());
            str_equals(t.as_str(), "signature")
        },
        ScValue::String(s) => {
            let t = xdr_string_to_string(s.as_slice());
            str_equals(t.as_str(), "signature")
        },
        _ => false,
    }
}

/// Collects the signatures held in a value.
pub fn extract_signatures_from_scval(val: &ScValue) -> (r: Vec<String>)
    ensures
        texts_view(r@) == signatures_in(*val),
    decreases val,
{
    match val {
        ScValue::Bytes(b) => {
            let mut r: Vec<String> = Vec::new();
            r.push(decode_signature_bytes(b.as_slice()));
            assert(texts_view(r@) =~= seq![signature_text(b@)]);
            r
        },
        ScValue::MapVal(Some(entries)) => {
            let mut r: Vec<String> = Vec::new();
            let mut i: usize = 0;
            while i < entries.len()
                invariant
                    i <= entries@.len(),
                    *val == ScValue::MapVal(Some(*entries)),
                    texts_view(r@) == map_signatures(entries@.take(i as int)),
                decreases entries@.len() - i,
            {
                proof {
                    assert(decreases_to!(*val => (*val)->MapVal_0));
                    assert(decreases_to!((*val)->MapVal_0 => (*val)->MapVal_0->Some_0));
                    assert(decreases_to!(*entries => entries[i as int]));
                    assert(decreases_to!(entries[i as int] => entries[i as int].val));
                    assert(entries@.take(i + 1).subrange(0, i as int) =~= entries@.take(i as int));
                    assert(entries@.take(i + 1)[i as int] == entries@[i as int]);
                }
                if is_signature_key(&entries[i].key) {
                    let sub = extract_signatures_from_scval(&entries[i].val);
                    append_texts(&mut r, sub);
                } else {
                    assert(texts_view(r@) =~= texts_view(r@) + Seq::<Seq<char>>::empty());
                }
                i = i + 1;
            }
            assert(entries@.take(i as int) =~= entries@);
            r
        },
        ScValue::Vec(Some(items)) => {
            let mut r: Vec<String> = Vec::new();
            let mut i: usize = 0;
            while i < items.len()
                invariant
                    i <= items@.len(),
                    *val == ScValue::Vec(Some(*items)),
                    texts_view(r@) == items_signatures(items@.take(i as int)),
                decreases items@.len() - i,
            {
                proof {
                    assert(decreases_to!(*val => (*val)->Vec_0));
                    assert(decreases_to!((*val)->Vec_0 => (*val)->Vec_0->Some_0));
                    assert(decreases_to!(*items => items[i as int]));
                    assert(items@.take(i + 1).subrange(0, i as int) =~= items@.take(i as int));
                    assert(items@.take(i + 1)[i as int] == items@[i as int]);
                }
                let sub = extract_signatures_from_scval(&items[i]);
                append_texts(&mut r, sub);
                i = i + 1;
            }
            assert(items@.take(i as int) =~= items@);
            r
        },
        _ => {
            let r: Vec<String> = Vec::new();
            assert(texts_view(r@) =~= Seq::<Seq<char>>::empty());
            r
        },
    }
}

/// How an authorization entry given as base64 XDR was read.
pub enum AuthEntryDecode {
    /// The text is not base64.
    Base64Failed,
    /// The bytes are not an authorization entry.
    XdrFailed,
    /// The entry.
    Entry(AuthorizationEntry),
}

/// The signatures of an authorization entry as it was read: a label for
/// text that is not base64 or bytes that are not an entry; none for the
/// source account; those in the address credentials' signature otherwise.
pub open spec fn entry_signatures(d: AuthEntryDecode) -> Seq<Seq<char>> {
    match d {
        AuthEntryDecode::Base64Failed => seq!["<invalid: base64 decode failed>"@],
        AuthEntryDecode::XdrFailed => seq!["<invalid: xdr decode failed>"@],
        AuthEntryDecode::Entry(e) => match e.credentials {
            SorobanCredentials::SourceAccount => Seq::empty(),
            SorobanCredentials::Address(c) => signatures_in(c.signature),
        },
    }
}

/// The signatures of an authorization entry, as it was read from base64 XDR.
pub fn signatures_of_entry(decoded: &AuthEntryDecode) -> (r: Vec<String>)
    ensures
        texts_view(r@) == entry_signatures(*decoded),
{
    match decoded {
        AuthEntryDecode::Base64Failed => {
            let r = vec![String::from_str("<invalid: base64 decode failed>")];
            assert(texts_view(r@) =~= seq!["<invalid: base64 decode failed>"@]);
            r
        },
        AuthEntryDecode::XdrFailed => {
            let r = vec![String::from_str("<invalid: xdr decode failed>")];
            assert(texts_view(r@) =~= seq!["<invalid: xdr decode failed>"@]);
            r
        },
        AuthEntryDecode::Entry(e) => match &e.credentials {
            SorobanCredentials::SourceAccount => {
                let r: Vec<String> = Vec::new();
                assert(texts_view(r@) =~= Seq::<Seq<char>>::empty());
                r
            },
            SorobanCredentials::Address(c) => extract_signatures_from_scval(&c.signature),
        },
    }
}

/// What `stellar_xdr` makes of bytes read as a `SorobanAuthorizationEntry`
/// with nesting limited to `depth`: the entry in the library's model, or the
/// text of the decoding error.
pub uninterp spec fn auth_entry_from_xdr(bytes: Seq<u8>, depth: u32) -> Result<AuthorizationEntry, Seq<char>>;

/// Reads an authorization entry from XDR bytes with `stellar_xdr`'s
/// `ReadXdr::from_xdr` (nesting limited to `depth`, no length limit; all
/// bytes must be consumed) and takes it into the model. Input nested deeper
/// is a decoding error. The claim: the outcome is
/// `auth_entry_from_xdr(bytes, depth)`, a function of the bytes and the limit.
#[verifier::external_body]
pub(crate) fn read_auth_entry_xdr(bytes: &[u8], depth: u32) -> (r: Result<AuthorizationEntry, String>)
    ensures
        match r {
            Ok(e) => auth_entry_from_xdr(bytes@, depth) == Ok::<AuthorizationEntry, Seq<char>>(e),
            Err(m) => auth_entry_from_xdr(bytes@, depth) == Err::<AuthorizationEntry, Seq<char>>(m@),
        },
{
    let e = sx::SorobanAuthorizationEntry::from_xdr(bytes, sx::Limits::depth(depth)).map_err(|e| e.to_string())?;
    Ok(auth_entry_model(&e))
}

/// How base64 text reads as an authorization entry: standard base64, then
/// XDR.
pub open spec fn auth_entry_reading(text: Seq<char>) -> AuthEntryDecode {
    match base64_standard_decode(text) {
        Err(_) => AuthEntryDecode::Base64Failed,
        Ok(bytes) => match auth_entry_from_xdr(bytes, XDR_READ_DEPTH) {
            Err(_) => AuthEntryDecode::XdrFailed,
            Ok(e) => AuthEntryDecode::Entry(e),
        },
    }
}

/// The signatures in an authorization entry given as base64 XDR, each as
/// lowercase hex or as a label saying why it is invalid; a single label
/// when the text is not base64 or the bytes are not an entry.
pub fn decode_auth_entry_signatures(auth_entry_b64: &str) -> (r: Vec<String>)
    ensures
        texts_view(r@) == entry_signatures(auth_entry_reading(auth_entry_b64@)),
{
    let decoded = match decode_base64(auth_entry_b64) {
        Err(_) => AuthEntryDecode::Base64Failed,
        Ok(bytes) => match read_auth_entry_xdr(bytes.as_slice(), XDR_READ_DEPTH) {
            Err(_) => AuthEntryDecode::XdrFailed,
            Ok(entry) => AuthEntryDecode::Entry(entry),
        },
    };
    signatures_of_entry(&decoded)
}

} // verus!
