//! Rendering of Soroban values as JSON, and of their wide integers as
//! decimal strings.

use vstd::prelude::*;
use vstd::arithmetic::div_mod::lemma_fundamental_div_mod_converse;
use crate::decode::auth::{address_strkey, scaddress_to_strkey};
use crate::json::{
    has_key, has_member, lemma_object_insert_members, keys_strictly_sorted, lemma_object_insert_sorted, json_seq_view, json_text, json_view, lemma_json_seq_view_push,
    lemma_members_view_index, members_view, object_insert, object_insert_member, to_json_text,
    Json, JsonMember, JsonValue,
};
use crate::text::{
    decimal_digits, decimal_value, law_decimal_round_trip, law_signed_decimal_round_trip, signed_decimal_value, digit_to_char, hex_bytes, push_char, push_decimal_i128, push_decimal_u128,
    push_hex, signed_decimal, string_from_utf8_lossy, utf8_lossy,
};
use crate::xdr::{
    ContractExecutable, Int128Parts, Int256Parts, ScContractInstance, ErrorValue, ErrorCode,
    ScMapEntry, ScValue, UInt128Parts, UInt256Parts,
};

verus! {

/// Big-endian 256-bit limbs, most significant first.
pub type U256Limbs = [u64; 4];

/// The base of one limb, 2^64.
pub open spec fn limb_base() -> int {
    0x1_0000_0000_0000_0000
}

/// 2^256, the modulus of 256-bit arithmetic.
pub open spec fn u256_modulus() -> int {
    limb_base() * limb_base() * limb_base() * limb_base()
}

/// The value of four big-endian limbs.
pub open spec fn limbs_value(l: Seq<u64>) -> int {
    ((l[0] * limb_base() + l[1]) * limb_base() + l[2]) * limb_base() + l[3]
}

/// The value of an unsigned 128-bit integer given as halves.
pub open spec fn u128_parts_value(p: UInt128Parts) -> int {
    p.hi * limb_base() + p.lo
}

/// The value of a signed 128-bit integer given as halves.
pub open spec fn i128_parts_value(p: Int128Parts) -> int {
    p.hi * limb_base() + p.lo
}

/// The value of an unsigned 256-bit integer given as limbs.
pub open spec fn u256_parts_value(p: UInt256Parts) -> int {
    limbs_value(seq![p.hi_hi, p.hi_lo, p.lo_hi, p.lo_lo])
}

/// The value of a signed 256-bit integer given as limbs.
pub open spec fn i256_parts_value(p: Int256Parts) -> int {
    ((p.hi_hi * limb_base() + p.hi_lo) * limb_base() + p.lo_hi) * limb_base() + p.lo_lo
}

proof fn lemma_limbs_value_bounds(l: Seq<u64>)
    requires
        l.len() == 4,
    ensures
        0 <= limbs_value(l) < u256_modulus(),
        (l[0] != 0 || l[1] != 0 || l[2] != 0) ==> limbs_value(l) >= limb_base(),
        (l[0] == 0 && l[1] == 0 && l[2] == 0) ==> limbs_value(l) == l[3],
{
    let ghost b = limb_base();
    let (a0, a1, a2, a3) = (l[0] as int, l[1] as int, l[2] as int, l[3] as int);
    assert(0 <= a0 < b && 0 <= a1 < b && 0 <= a2 < b && 0 <= a3 < b);
    assert(0 <= a0 * b + a1 < b * b) by (nonlinear_arith)
        requires 0 <= a0 < b, 0 <= a1 < b, b > 0;
    assert(0 <= (a0 * b + a1) * b + a2 < b * b * b) by (nonlinear_arith)
        requires 0 <= a0 * b + a1 < b * b, 0 <= a2 < b, b > 0;
    assert(0 <= ((a0 * b + a1) * b + a2) * b + a3 < b * b * b * b) by (nonlinear_arith)
        requires 0 <= (a0 * b + a1) * b + a2 < b * b * b, 0 <= a3 < b, b > 0;
    if a0 != 0 || a1 != 0 || a2 != 0 {
        assert((a0 * b + a1) * b + a2 >= 1) by (nonlinear_arith)
            requires 0 <= a0, 0 <= a1, 0 <= a2, b > 0, a0 != 0 || a1 != 0 || a2 != 0;
        assert(((a0 * b + a1) * b + a2) * b >= b) by (nonlinear_arith)
            requires (a0 * b + a1) * b + a2 >= 1, b > 0;
    }
}

/// One step of long division by a small divisor: the limb `limb` enters
/// below the running remainder `rem`.
fn div_step(rem: u64, limb: u64, d: u64) -> (res: (u64, u64))
    requires
        2 <= d <= 10,
        rem < d,
    ensures
        rem * limb_base() + limb == res.0 * d + res.1,
        res.1 < d,
{
    let dd: u128 = d as u128;
    let cur: u128 = (rem as u128) * 0x1_0000_0000_0000_0000u128 + (limb as u128);
    let q: u128 = cur / dd;
    let r: u128 = cur % dd;
    assert(q < 0x1_0000_0000_0000_0000u128) by (nonlinear_arith)
        requires
            cur == rem * 0x1_0000_0000_0000_0000u128 + limb,
            rem < dd, limb < 0x1_0000_0000_0000_0000u128, dd >= 2,
            q == cur / dd;
    assert(cur == q * dd + r) by (nonlinear_arith)
        requires q == cur / dd, r == cur % dd, dd >= 2;
    (q as u64, r as u64)
}

/// Long division carries over one more limb: if `p == big_q * d + r` and the
/// remainder followed by `limb` divides as `q * d + r2`, then so does `p`
/// followed by `limb`.
proof fn lemma_div_carry(p: int, big_q: int, r: int, d: int, limb: int, q: int, r2: int, b: int)
    requires
        p == big_q * d + r,
        r * b + limb == q * d + r2,
    ensures
        p * b + limb == (big_q * b + q) * d + r2,
{
    assert(p * b + limb == (big_q * b + q) * d + r2) by (nonlinear_arith)
        requires
            p == big_q * d + r,
            r * b + limb == q * d + r2;
}

/// Divides a 256-bit value by a small divisor, returning quotient limbs and remainder.
fn div_limbs_small(l: U256Limbs, d: u64) -> (res: (U256Limbs, u64))
    requires
        2 <= d <= 10,
    ensures
        limbs_value(l@) == limbs_value(res.0@) * d + res.1,
        res.1 < d,
{
    let ghost b = limb_base();
    let (q0, r0) = div_step(0, l[0], d);
    assert(l@[0] as int == (q0 as int) * (d as int) + r0);
    let (q1, r1) = div_step(r0, l[1], d);
    let (q2, r2) = div_step(r1, l[2], d);
    let (q3, r3) = div_step(r2, l[3], d);
    let q: U256Limbs = [q0, q1, q2, q3];
    proof {
        let dd = d as int;
        lemma_div_carry(l@[0] as int, q0 as int, r0 as int, dd, l@[1] as int, q1 as int, r1 as int, b);
        lemma_div_carry(l@[0] * b + l@[1], q0 * b + q1, r1 as int, dd, l@[2] as int, q2 as int, r2 as int, b);
        lemma_div_carry((l@[0] * b + l@[1]) * b + l@[2], (q0 * b + q1) * b + q2, r2 as int, dd, l@[3] as int, q3 as int, r3 as int, b);
    }
    (q, r3)
}

/// Appends the decimal representation of a 256-bit value to `s`.
fn push_decimal_u256(s: &mut String, l: U256Limbs)
    ensures
        final(s)@ == old(s)@ + decimal_digits(limbs_value(l@) as nat),
    decreases limbs_value(l@),
{
    proof {
        lemma_limbs_value_bounds(l@);
    }
    if l[0] == 0 && l[1] == 0 && l[2] == 0 && l[3] < 10 {
        push_char(s, digit_to_char(l[3] as u8));
    } else {
        let (q, r) = div_limbs_small(l, 10);
        proof {
            lemma_limbs_value_bounds(q@);
            let v = limbs_value(l@);
            assert(v >= 10);
            lemma_fundamental_div_mod_converse(v, 10, limbs_value(q@), r as int);
        }
        push_decimal_u256(s, q);
        push_char(s, digit_to_char(r as u8));
    }
}

/// Renders an unsigned 256-bit integer, given as four big-endian limbs, in decimal.
pub fn u256_limbs_to_decimal(limbs: U256Limbs) -> (s: String)
    ensures
        s@ == decimal_digits(limbs_value(limbs@) as nat),
{
    let mut s = String::new();
    push_decimal_u256(&mut s, limbs);
    s
}

proof fn lemma_not_u64(x: u64)
    ensures
        !x == 0xFFFF_FFFF_FFFF_FFFFu64 - x,
{
    assert(!x == 0xFFFF_FFFF_FFFF_FFFFu64 - x) by (bit_vector);
}

/// One step of two's-complement negation: complement the limb and add the carry.
fn negate_step(limb: u64, carry: u128) -> (res: (u64, u128))
    requires
        carry <= 1,
    ensures
        limb_base() - 1 - limb + carry == res.1 * limb_base() + res.0,
        res.1 <= 1,
{
    proof {
        lemma_not_u64(limb);
    }
    let sum: u128 = (!limb) as u128 + carry;
    let out = sum as u64;
    let next = sum >> 64u32;
    assert(out == sum % 0x1_0000_0000_0000_0000u128) by (bit_vector)
        requires out == sum as u64;
    assert(next == sum / 0x1_0000_0000_0000_0000u128) by (bit_vector)
        requires next == sum >> 64u32;
    assert(sum == next * 0x1_0000_0000_0000_0000u128 + out) by (nonlinear_arith)
        requires
            out == sum % 0x1_0000_0000_0000_0000u128,
            next == sum / 0x1_0000_0000_0000_0000u128;
    (out, next)
}

/// The carry of two's-complement negation moves one limb up: if the lower
/// part plus one is `c * big_b + low`, and the next complemented limb plus
/// the carry is `c2 * b + o`, then the wider part plus one is
/// `c2 * (b * big_b) + (o * big_b + low)`.
proof fn lemma_negate_carry(n: int, c: int, low: int, c2: int, o: int, b: int, big_b: int)
    requires
        n + c == c2 * b + o,
    ensures
        n * big_b + (c * big_b + low) == c2 * (b * big_b) + (o * big_b + low),
{
    assert(n * big_b + (c * big_b + low) == c2 * (b * big_b) + (o * big_b + low)) by (nonlinear_arith)
        requires n + c == c2 * b + o;
}

/// Two's-complement negation of a 256-bit integer stored as big-endian limbs.
pub fn negate_u256(limbs: U256Limbs) -> (out: U256Limbs)
    ensures
        limbs_value(out@) == (u256_modulus() - limbs_value(limbs@)) % u256_modulus(),
{
    let ghost b = limb_base();
    let (o3, c3) = negate_step(limbs[3], 1);
    let (o2, c2) = negate_step(limbs[2], c3);
    let (o1, c1) = negate_step(limbs[1], c2);
    let (o0, c0) = negate_step(limbs[0], c1);
    let out: U256Limbs = [o0, o1, o2, o3];
    proof {
        lemma_limbs_value_bounds(limbs@);
        lemma_limbs_value_bounds(out@);
        let v = limbs_value(limbs@);
        let w = limbs_value(out@);
        let p = u256_modulus();
        let (n0, n1, n2, n3) = (b - 1 - limbs@[0], b - 1 - limbs@[1], b - 1 - limbs@[2], b - 1 - limbs@[3]);
        lemma_negate_carry(n2, c3 as int, o3 as int, c2 as int, o2 as int, b, b);
        lemma_negate_carry(n1, c2 as int, o2 * b + o3, c1 as int, o1 as int, b, b * b);
        lemma_negate_carry(n0, c1 as int, (o1 * b + o2) * b + o3, c0 as int, o0 as int, b, b * b * b);
        assert(w == o0 * (b * b * b) + ((o1 * b + o2) * b + o3)) by (nonlinear_arith)
            requires w == ((o0 * b + o1) * b + o2) * b + o3;
        assert(n0 * (b * b * b) + (n1 * (b * b) + (n2 * b + n3)) + 1 == p - v) by (nonlinear_arith)
            requires
                v == ((limbs@[0] * b + limbs@[1]) * b + limbs@[2]) * b + limbs@[3],
                p == b * b * b * b,
                n0 == b - 1 - limbs@[0], n1 == b - 1 - limbs@[1],
                n2 == b - 1 - limbs@[2], n3 == b - 1 - limbs@[3];
        assert(b * (b * b * b) == p) by (nonlinear_arith)
            requires p == b * b * b * b;
        assert(w + c0 * p == p - v);
        lemma_fundamental_div_mod_converse(p - v, p, c0 as int, w);
    }
    out
}

/// Four limbs are determined by their value.
proof fn lemma_limbs_value_injective(a: Seq<u64>, c: Seq<u64>)
    requires
        a.len() == 4,
        c.len() == 4,
        limbs_value(a) == limbs_value(c),
    ensures
        a =~= c,
{
    let b = limb_base();
    let ha2 = (a[0] * b + a[1]) * b + a[2];
    let hc2 = (c[0] * b + c[1]) * b + c[2];
    lemma_fundamental_div_mod_converse(limbs_value(a), b, ha2, a[3] as int);
    lemma_fundamental_div_mod_converse(limbs_value(c), b, hc2, c[3] as int);
    let ha1 = a[0] * b + a[1];
    let hc1 = c[0] * b + c[1];
    lemma_fundamental_div_mod_converse(ha2, b, ha1, a[2] as int);
    lemma_fundamental_div_mod_converse(hc2, b, hc1, c[2] as int);
    lemma_fundamental_div_mod_converse(ha1, b, a[0] as int, a[1] as int);
    lemma_fundamental_div_mod_converse(hc1, b, c[0] as int, c[1] as int);
}

/// Negating zero gives zero, and negating one gives all ones, as
/// `negate_u256` states them.
pub proof fn law_negate_u256_edges(z: U256Limbs, nz: U256Limbs, one: U256Limbs, none: U256Limbs)
    requires
        z@ == seq![0u64, 0, 0, 0],
        limbs_value(nz@) == (u256_modulus() - limbs_value(z@)) % u256_modulus(),
        one@ == seq![0u64, 0, 0, 1],
        limbs_value(none@) == (u256_modulus() - limbs_value(one@)) % u256_modulus(),
    ensures
        nz@ == seq![0u64, 0, 0, 0],
        none@ == seq![u64::MAX, u64::MAX, u64::MAX, u64::MAX],
{
    let p = u256_modulus();
    let zeros = seq![0u64, 0, 0, 0];
    let ones = seq![u64::MAX, u64::MAX, u64::MAX, u64::MAX];
    assert(limbs_value(z@) == 0);
    lemma_fundamental_div_mod_converse(p, p, 1, 0);
    assert(limbs_value(zeros) == 0);
    lemma_limbs_value_injective(nz@, zeros);
    assert(limbs_value(one@) == 1);
    lemma_fundamental_div_mod_converse(p - 1, p, 0, p - 1);
    assert(limbs_value(ones) == p - 1);
    lemma_limbs_value_injective(none@, ones);
}

/// Negating a 256-bit integer twice gives it back: if `b` is the negation of
/// `a` and `c` the negation of `b`, as `negate_u256` states, then `c` is `a`.
pub proof fn law_negate_u256_involution(a: U256Limbs, b: U256Limbs, c: U256Limbs)
    requires
        limbs_value(b@) == (u256_modulus() - limbs_value(a@)) % u256_modulus(),
        limbs_value(c@) == (u256_modulus() - limbs_value(b@)) % u256_modulus(),
    ensures
        c@ == a@,
{
    let p = u256_modulus();
    lemma_limbs_value_bounds(a@);
    lemma_limbs_value_bounds(b@);
    let v = limbs_value(a@);
    if v == 0 {
        lemma_fundamental_div_mod_converse(p, p, 1, 0);
        lemma_fundamental_div_mod_converse(p - 0, p, 1, 0);
    } else {
        lemma_fundamental_div_mod_converse(p - v, p, 0, p - v);
        lemma_fundamental_div_mod_converse(p - (p - v), p, 0, v);
    }
    lemma_limbs_value_injective(c@, a@);
}

/// Renders an unsigned 128-bit integer in decimal.
pub fn u128_to_decimal(parts: &UInt128Parts) -> (s: String)
    ensures
        s@ == decimal_digits(u128_parts_value(*parts) as nat),
{
    let v: u128 = (parts.hi as u128) * 0x1_0000_0000_0000_0000u128 + (parts.lo as u128);
    let mut s = String::new();
    push_decimal_u128(&mut s, v);
    s
}

/// Renders a signed 128-bit integer in decimal.
pub fn i128_to_decimal(parts: &Int128Parts) -> (s: String)
    ensures
        s@ == signed_decimal(i128_parts_value(*parts)),
{
    let v: i128 = (parts.hi as i128) * 0x1_0000_0000_0000_0000i128 + (parts.lo as i128);
    let mut s = String::new();
    push_decimal_i128(&mut s, v);
    s
}

/// Renders an unsigned 256-bit integer in decimal.
pub fn u256_to_decimal(parts: &UInt256Parts) -> (s: String)
    ensures
        s@ == decimal_digits(u256_parts_value(*parts) as nat),
{
    let limbs: U256Limbs = [parts.hi_hi, parts.hi_lo, parts.lo_hi, parts.lo_lo];
    assert(limbs@ =~= seq![parts.hi_hi, parts.hi_lo, parts.lo_hi, parts.lo_lo]);
    u256_limbs_to_decimal(limbs)
}

/// Renders a signed 256-bit integer in decimal: the magnitude, preceded by
/// `-` when the value is negative.
pub fn i256_to_decimal(parts: &Int256Parts) -> (s: String)
    ensures
        s@ == signed_decimal(i256_parts_value(*parts)),
{
    let ghost b = limb_base();
    let negative = parts.hi_hi < 0;
    let top: u64 = if negative {
        (parts.hi_hi as i128 + 0x1_0000_0000_0000_0000i128) as u64
    } else {
        parts.hi_hi as u64
    };
    let limbs: U256Limbs = [top, parts.hi_lo, parts.lo_hi, parts.lo_lo];
    let ghost v = i256_parts_value(*parts);
    proof {
        lemma_limbs_value_bounds(limbs@);
        let rest = (parts.hi_lo * b + parts.lo_hi) * b + parts.lo_lo;
        assert(0 <= rest < b * b * b) by (nonlinear_arith)
            requires 0 <= parts.hi_lo < b, 0 <= parts.lo_hi < b, 0 <= parts.lo_lo < b, b > 0,
                rest == (parts.hi_lo * b + parts.lo_hi) * b + parts.lo_lo;
        assert(v == parts.hi_hi * (b * b * b) + rest) by (nonlinear_arith)
            requires v == ((parts.hi_hi * b + parts.hi_lo) * b + parts.lo_hi) * b + parts.lo_lo,
                rest == (parts.hi_lo * b + parts.lo_hi) * b + parts.lo_lo;
        assert(limbs_value(limbs@) == top * (b * b * b) + rest) by (nonlinear_arith)
            requires limbs_value(limbs@) == ((top * b + parts.hi_lo) * b + parts.lo_hi) * b + parts.lo_lo,
                rest == (parts.hi_lo * b + parts.lo_hi) * b + parts.lo_lo;
        assert(u256_modulus() == b * (b * b * b)) by (nonlinear_arith)
            requires u256_modulus() == b * b * b * b;
        if negative {
            assert(top == parts.hi_hi + b);
            assert(limbs_value(limbs@) == v + u256_modulus()) by (nonlinear_arith)
                requires limbs_value(limbs@) == top * (b * b * b) + rest,
                    v == parts.hi_hi * (b * b * b) + rest,
                    top == parts.hi_hi + b,
                    u256_modulus() == b * (b * b * b);
            assert(v < 0 && -v <= u256_modulus()) by (nonlinear_arith)
                requires v == parts.hi_hi * (b * b * b) + rest, parts.hi_hi < 0,
                    parts.hi_hi >= -0x8000_0000_0000_0000, 0 <= rest < b * b * b,
                    b == 0x1_0000_0000_0000_0000, u256_modulus() == b * (b * b * b);
        } else {
            assert(limbs_value(limbs@) == v);
        }
    }
    if negative {
        let magnitude = negate_u256(limbs);
        proof {
            let p = u256_modulus();
            assert(p - limbs_value(limbs@) == -v);
            if -v == p {
                lemma_fundamental_div_mod_converse(-v, p, 1, 0);
            } else {
                lemma_fundamental_div_mod_converse(-v, p, 0, -v);
            }
        }
        let mut s = String::new();
        push_char(&mut s, '-');
        push_decimal_u256(&mut s, magnitude);
        assert(s@ =~= seq!['-'] + decimal_digits((-v) as nat));
        s
    } else {
        u256_limbs_to_decimal(limbs)
    }
}

} // verus!

verus! {

/// The deepest nesting of values that is rendered.
pub const MAX_SCVAL_DEPTH: usize = 100;

/// Maximum nesting depth the rendering descends into; deeper values are
/// replaced by a truncation marker.
pub open spec fn max_scval_depth() -> int {
    100
}

/// The marker that stands in for a value nested too deeply.
pub open spec fn truncation_marker() -> JsonValue {
    JsonValue::Object(
        seq![
            ("__truncated__"@, JsonValue::Bool(true)),
            ("reason"@, JsonValue::Str("max recursion depth (100) exceeded"@)),
        ],
    )
}

/// The name of a host error code.
pub open spec fn error_code_name(c: ErrorCode) -> Seq<char> {
    match c {
        ErrorCode::ArithDomain => "ArithDomain"@,
        ErrorCode::IndexBounds => "IndexBounds"@,
        ErrorCode::InvalidInput => "InvalidInput"@,
        ErrorCode::MissingValue => "MissingValue"@,
        ErrorCode::ExistingValue => "ExistingValue"@,
        ErrorCode::ExceededLimit => "ExceededLimit"@,
        ErrorCode::InvalidAction => "InvalidAction"@,
        ErrorCode::InternalError => "InternalError"@,
        ErrorCode::UnexpectedType => "UnexpectedType"@,
        ErrorCode::UnexpectedSize => "UnexpectedSize"@,
    }
}

/// A host error code is rendered as the name of its own `ScErrorCode`
/// variant, so no two codes share a rendering.
pub proof fn law_error_code_names(a: ErrorCode, b: ErrorCode)
    ensures
        error_code_name(ErrorCode::ArithDomain) == "ArithDomain"@,
        error_code_name(ErrorCode::IndexBounds) == "IndexBounds"@,
        error_code_name(ErrorCode::InvalidInput) == "InvalidInput"@,
        error_code_name(ErrorCode::MissingValue) == "MissingValue"@,
        error_code_name(ErrorCode::ExistingValue) == "ExistingValue"@,
        error_code_name(ErrorCode::ExceededLimit) == "ExceededLimit"@,
        error_code_name(ErrorCode::InvalidAction) == "InvalidAction"@,
        error_code_name(ErrorCode::InternalError) == "InternalError"@,
        error_code_name(ErrorCode::UnexpectedType) == "UnexpectedType"@,
        error_code_name(ErrorCode::UnexpectedSize) == "UnexpectedSize"@,
        error_code_name(a) == error_code_name(b) ==> a == b,
{
    reveal_strlit("ArithDomain");
    reveal_strlit("IndexBounds");
    reveal_strlit("InvalidInput");
    reveal_strlit("MissingValue");
    reveal_strlit("ExistingValue");
    reveal_strlit("ExceededLimit");
    reveal_strlit("InvalidAction");
    reveal_strlit("InternalError");
    reveal_strlit("UnexpectedType");
    reveal_strlit("UnexpectedSize");
    if error_code_name(a) == error_code_name(b) {
        let na = error_code_name(a);
        let nb = error_code_name(b);
        assert(na.len() == nb.len());
        assert(na[0] == nb[0]);
        assert(na[1] == nb[1]);
        assert(na[2] == nb[2]);
        if na.len() == 14 {
            assert(na[10] == nb[10]);
        }
    }
}

/// The type name and code of an error value.
pub open spec fn scerror_parts(e: ErrorValue) -> (Seq<char>, JsonValue) {
    match e {
        ErrorValue::Contract(code) => ("Contract"@, JsonValue::Number(code as int)),
        ErrorValue::WasmVm(c) => ("WasmVm"@, JsonValue::Str(error_code_name(c))),
        ErrorValue::Context(c) => ("Context"@, JsonValue::Str(error_code_name(c))),
        ErrorValue::Storage(c) => ("Storage"@, JsonValue::Str(error_code_name(c))),
        ErrorValue::Object(c) => ("Object"@, JsonValue::Str(error_code_name(c))),
        ErrorValue::Crypto(c) => ("Crypto"@, JsonValue::Str(error_code_name(c))),
        ErrorValue::Events(c) => ("Events"@, JsonValue::Str(error_code_name(c))),
        ErrorValue::Budget(c) => ("Budget"@, JsonValue::Str(error_code_name(c))),
        ErrorValue::Value(c) => ("Value"@, JsonValue::Str(error_code_name(c))),
        ErrorValue::Auth(c) => ("Auth"@, JsonValue::Str(error_code_name(c))),
    }
}

/// An error value is rendered with the name of its own `ScError` type and,
/// for a host error, the name of its code (a contract error keeps its
/// number), so two different error values never render alike.
#[verifier::spinoff_prover]
#[verifier::rlimit(60)]
pub proof fn law_error_rendering_names_type_and_code(a: ErrorValue, b: ErrorValue, c: ErrorCode, n: u32)
    ensures
        scerror_parts(ErrorValue::Contract(n)) == ("Contract"@, JsonValue::Number(n as int)),
        scerror_parts(ErrorValue::WasmVm(c)) == ("WasmVm"@, JsonValue::Str(error_code_name(c))),
        scerror_parts(ErrorValue::Context(c)) == ("Context"@, JsonValue::Str(error_code_name(c))),
        scerror_parts(ErrorValue::Storage(c)) == ("Storage"@, JsonValue::Str(error_code_name(c))),
        scerror_parts(ErrorValue::Object(c)) == ("Object"@, JsonValue::Str(error_code_name(c))),
        scerror_parts(ErrorValue::Crypto(c)) == ("Crypto"@, JsonValue::Str(error_code_name(c))),
        scerror_parts(ErrorValue::Events(c)) == ("Events"@, JsonValue::Str(error_code_name(c))),
        scerror_parts(ErrorValue::Budget(c)) == ("Budget"@, JsonValue::Str(error_code_name(c))),
        scerror_parts(ErrorValue::Value(c)) == ("Value"@, JsonValue::Str(error_code_name(c))),
        scerror_parts(ErrorValue::Auth(c)) == ("Auth"@, JsonValue::Str(error_code_name(c))),
        scerror_rendered(a) == scerror_rendered(b) ==> a == b,
{
    reveal_strlit("Contract");
    reveal_strlit("WasmVm");
    reveal_strlit("Context");
    reveal_strlit("Storage");
    reveal_strlit("Object");
    reveal_strlit("Crypto");
    reveal_strlit("Events");
    reveal_strlit("Budget");
    reveal_strlit("Value");
    reveal_strlit("Auth");
    if scerror_rendered(a) == scerror_rendered(b) {
        let (ta, ca) = scerror_parts(a);
        let (tb, cb) = scerror_parts(b);
        let ma = seq![("code"@, ca), ("type"@, JsonValue::Str(ta))];
        let mb = seq![("code"@, cb), ("type"@, JsonValue::Str(tb))];
        assert(ma[0] == mb[0]);
        assert(ma[1] == mb[1]);
        assert(ta == tb);
        assert(ca == cb);
        assert(ta.len() == tb.len());
        assert(ta[0] == tb[0]);
        assert(ta[1] == tb[1]);
        match (a, b) {
            (ErrorValue::Contract(_), ErrorValue::Contract(_)) => {},
            (ErrorValue::Contract(_), _) => {},
            (_, ErrorValue::Contract(_)) => {},
            _ => {
                let x = match a {
                    ErrorValue::Contract(_) => ErrorCode::ArithDomain,
                    ErrorValue::WasmVm(x) => x,
                    ErrorValue::Context(x) => x,
                    ErrorValue::Storage(x) => x,
                    ErrorValue::Object(x) => x,
                    ErrorValue::Crypto(x) => x,
                    ErrorValue::Events(x) => x,
                    ErrorValue::Budget(x) => x,
                    ErrorValue::Value(x) => x,
                    ErrorValue::Auth(x) => x,
                };
                let y = match b {
                    ErrorValue::Contract(_) => ErrorCode::ArithDomain,
                    ErrorValue::WasmVm(y) => y,
                    ErrorValue::Context(y) => y,
                    ErrorValue::Storage(y) => y,
                    ErrorValue::Object(y) => y,
                    ErrorValue::Crypto(y) => y,
                    ErrorValue::Events(y) => y,
                    ErrorValue::Budget(y) => y,
                    ErrorValue::Value(y) => y,
                    ErrorValue::Auth(y) => y,
                };
                assert(ca == JsonValue::Str(error_code_name(x)));
                assert(cb == JsonValue::Str(error_code_name(y)));
                law_error_code_names(x, y);
            },
        }
    }
}

/// An error value rendered as `{"code": ..., "type": ...}`.
pub open spec fn scerror_rendered(e: ErrorValue) -> JsonValue {
    JsonValue::Object(
        seq![("code"@, scerror_parts(e).1), ("type"@, JsonValue::Str(scerror_parts(e).0))],
    )
}

/// The string a rendered map key becomes: a JSON string as it is, any other
/// value as its compact JSON text.
pub open spec fn key_string(k: JsonValue) -> Seq<char> {
    match k {
        JsonValue::Str(s) => s,
        _ => json_text(k),
    }
}

/// Whether two keys of a rendered map stringify to the same text.
pub open spec fn keys_collide(pairs: Seq<(JsonValue, JsonValue)>) -> bool {
    exists|i: int, j: int|
        0 <= i < j < pairs.len() && #[trigger] key_string(pairs[i].0) == #[trigger] key_string(
            pairs[j].0,
        )
}

/// A map entry rendered losslessly as `{"key": ..., "value": ...}`.
pub open spec fn entry_object(k: JsonValue, v: JsonValue) -> JsonValue {
    JsonValue::Object(seq![("key"@, k), ("value"@, v)])
}

/// Map entries rendered as an array of entry objects, in map order.
pub open spec fn entries_array(pairs: Seq<(JsonValue, JsonValue)>) -> Seq<JsonValue>
    decreases pairs.len(),
{
    if pairs.len() == 0 {
        Seq::empty()
    } else {
        entries_array(pairs.drop_last()).push(entry_object(pairs.last().0, pairs.last().1))
    }
}

/// Map entries inserted one by one into an object under their key strings.
pub open spec fn members_from_pairs(pairs: Seq<(JsonValue, JsonValue)>) -> Seq<(Seq<char>, JsonValue)>
    decreases pairs.len(),
{
    if pairs.len() == 0 {
        Seq::empty()
    } else {
        object_insert(
            members_from_pairs(pairs.drop_last()),
            key_string(pairs.last().0),
            pairs.last().1,
        )
    }
}

/// A rendered map: an object keyed by the key strings, or, when two keys
/// stringify alike, the array of its entries.
pub open spec fn map_json(pairs: Seq<(JsonValue, JsonValue)>) -> JsonValue {
    if keys_collide(pairs) {
        JsonValue::Array(entries_array(pairs))
    } else {
        JsonValue::Object(members_from_pairs(pairs))
    }
}

/// The JSON rendering of a value found at nesting depth `depth`.
pub open spec fn rendered(v: ScValue, depth: int) -> JsonValue
    decreases v,
{
    if depth > max_scval_depth() {
        truncation_marker()
    } else {
        match v {
            ScValue::Bool(b) => JsonValue::Bool(b),
            ScValue::Void => JsonValue::Null,
            ScValue::Error(e) => scerror_rendered(e),
            ScValue::U32(x) => JsonValue::Number(x as int),
            ScValue::I32(x) => JsonValue::Number(x as int),
            ScValue::U64(x) => JsonValue::Number(x as int),
            ScValue::I64(x) => JsonValue::Number(x as int),
            ScValue::Timepoint(x) => JsonValue::Number(x as int),
            ScValue::Duration(x) => JsonValue::Number(x as int),
            ScValue::U128(p) => JsonValue::Str(decimal_digits(u128_parts_value(p) as nat)),
            ScValue::I128(p) => JsonValue::Str(signed_decimal(i128_parts_value(p))),
            ScValue::U256(p) => JsonValue::Str(decimal_digits(u256_parts_value(p) as nat)),
            ScValue::I256(p) => JsonValue::Str(signed_decimal(i256_parts_value(p))),
            ScValue::Bytes(b) => JsonValue::Str(seq!['0', 'x'] + hex_bytes(b@)),
            ScValue::String(b) => JsonValue::Str(utf8_lossy(b@)),
            ScValue::Symbol(b) => JsonValue::Str(utf8_lossy(b@)),
            ScValue::Vec(Some(items)) => JsonValue::Array(rendered_seq(items@, depth + 1)),
            ScValue::Vec(None) => JsonValue::Null,
            ScValue::MapVal(Some(entries)) => map_json(entry_pairs(entries@, depth + 1)),
            ScValue::MapVal(None) => JsonValue::Null,
            ScValue::Address(a) => JsonValue::Str(address_strkey(a)),
            ScValue::ContractInstance(inst) => {
                let executable = match inst.executable {
                    ContractExecutable::Wasm(hash) => JsonValue::Object(
                        seq![
                            ("type"@, JsonValue::Str("Wasm"@)),
                            ("wasmHash"@, JsonValue::Str(seq!['0', 'x'] + hex_bytes(hash@))),
                        ],
                    ),
                    ContractExecutable::StellarAsset => JsonValue::Object(
                        seq![("type"@, JsonValue::Str("StellarAsset"@))],
                    ),
                };
                let storage = match inst.storage {
                    Some(entries) => map_json(entry_pairs(entries@, depth + 1)),
                    None => JsonValue::Null,
                };
                JsonValue::Object(seq![("executable"@, executable), ("storage"@, storage)])
            },
            ScValue::LedgerKeyContractInstance => JsonValue::Str("LedgerKeyContractInstance"@),
            ScValue::LedgerKeyNonce(n) => JsonValue::Object(
                seq![("nonce"@, JsonValue::Number(n as int))],
            ),
        }
    }
}

/// The renderings of a sequence of values at one depth.
pub open spec fn rendered_seq(items: Seq<ScValue>, depth: int) -> Seq<JsonValue>
    decreases items,
{
    if items.len() == 0 {
        Seq::empty()
    } else {
        rendered_seq(items.subrange(0, items.len() - 1), depth).push(
            rendered(items[items.len() - 1], depth),
        )
    }
}

/// The rendered keys and values of map entries at one depth.
pub open spec fn entry_pairs(entries: Seq<ScMapEntry>, depth: int) -> Seq<(JsonValue, JsonValue)>
    decreases entries,
{
    if entries.len() == 0 {
        Seq::empty()
    } else {
        entry_pairs(entries.subrange(0, entries.len() - 1), depth).push(
            (
                rendered(entries[entries.len() - 1].key, depth),
                rendered(entries[entries.len() - 1].val, depth),
            ),
        )
    }
}

} // verus!

verus! {

/// A `String` holding the characters of a literal.
fn text_of(lit: &str) -> (s: String)
    ensures
        s@ == lit@,
{
    String::from_str(lit)
}

/// A member `key: value` of a JSON object.
fn member(key: &str, value: Json) -> (m: JsonMember)
    ensures
        m.key@ == key@,
        m.value == value,
{
    JsonMember { key: text_of(key), value }
}

/// A JSON object with one member.
fn object1(m1: JsonMember) -> (j: Json)
    ensures
        json_view(j) == JsonValue::Object(seq![(m1.key@, json_view(m1.value))]),
{
    let v = vec![m1];
    proof {
        lemma_members_view_index(v@);
        assert(members_view(v@) =~= seq![(m1.key@, json_view(m1.value))]);
    }
    Json::Object(v)
}

/// A JSON object with two members, in the given order.
fn object2(m1: JsonMember, m2: JsonMember) -> (j: Json)
    ensures
        json_view(j) == JsonValue::Object(
            seq![(m1.key@, json_view(m1.value)), (m2.key@, json_view(m2.value))],
        ),
{
    let ghost e = seq![(m1.key@, json_view(m1.value)), (m2.key@, json_view(m2.value))];
    let v = vec![m1, m2];
    proof {
        lemma_members_view_index(v@);
        assert(members_view(v@) =~= e);
    }
    Json::Object(v)
}

fn depth_exceeded_marker() -> (j: Json)
    ensures
        json_view(j) == truncation_marker(),
{
    object2(
        member("__truncated__", Json::Bool(true)),
        member("reason", Json::String(text_of("max recursion depth (100) exceeded"))),
    )
}

/// Renders bytes as `0x` followed by two lowercase hex characters per byte.
pub fn bytes_to_hex(bytes: &[u8]) -> (s: String)
    ensures
        s@ == seq!['0', 'x'] + hex_bytes(bytes@),
{
    let mut out = String::new();
    push_char(&mut out, '0');
    push_char(&mut out, 'x');
    push_hex(&mut out, bytes);
    assert(out@ =~= seq!['0', 'x'] + hex_bytes(bytes@));
    out
}

fn error_code_text(c: ErrorCode) -> (s: String)
    ensures
        s@ == error_code_name(c),
{
    match c {
        ErrorCode::ArithDomain => text_of("ArithDomain"),
        ErrorCode::IndexBounds => text_of("IndexBounds"),
        ErrorCode::InvalidInput => text_of("InvalidInput"),
        ErrorCode::MissingValue => text_of("MissingValue"),
        ErrorCode::ExistingValue => text_of("ExistingValue"),
        ErrorCode::ExceededLimit => text_of("ExceededLimit"),
        ErrorCode::InvalidAction => text_of("InvalidAction"),
        ErrorCode::InternalError => text_of("InternalError"),
        ErrorCode::UnexpectedType => text_of("UnexpectedType"),
        ErrorCode::UnexpectedSize => text_of("UnexpectedSize"),
    }
}

/// Renders an error value as `{"code": ..., "type": ...}`: a contract error
/// carries its numeric code, a host error the name of its code.
pub fn scerror_to_json(err: &ErrorValue) -> (j: Json)
    ensures
        json_view(j) == scerror_rendered(*err),
{
    let (kind_name, code) = match err {
        ErrorValue::Contract(code) => (text_of("Contract"), Json::Number(*code as i128)),
        ErrorValue::WasmVm(c) => (text_of("WasmVm"), Json::String(error_code_text(*c))),
        ErrorValue::Context(c) => (text_of("Context"), Json::String(error_code_text(*c))),
        ErrorValue::Storage(c) => (text_of("Storage"), Json::String(error_code_text(*c))),
        ErrorValue::Object(c) => (text_of("Object"), Json::String(error_code_text(*c))),
        ErrorValue::Crypto(c) => (text_of("Crypto"), Json::String(error_code_text(*c))),
        ErrorValue::Events(c) => (text_of("Events"), Json::String(error_code_text(*c))),
        ErrorValue::Budget(c) => (text_of("Budget"), Json::String(error_code_text(*c))),
        ErrorValue::Value(c) => (text_of("Value"), Json::String(error_code_text(*c))),
        ErrorValue::Auth(c) => (text_of("Auth"), Json::String(error_code_text(*c))),
    };
    object2(member("code", code), member("type", Json::String(kind_name)))
}

/// The string a rendered map key becomes: a JSON string as it is, any other
/// value as its compact JSON text.
pub fn key_string_from_value(value: &Json) -> (s: String)
    ensures
        s@ == key_string(json_view(*value)),
{
    match value {
        Json::String(s) => s.clone(),
        _ => to_json_text(value),
    }
}

/// Whether two of the texts are equal.
fn has_duplicate_text(texts: &Vec<String>) -> (b: bool)
    ensures
        b == exists|i: int, j: int| 0 <= i < j < texts@.len() && #[trigger] texts@[i]@ == #[trigger] texts@[j]@,
{
    let n = texts.len();
    let mut i: usize = 0;
    while i < n
        invariant
            n == texts@.len(),
            i <= n,
            forall|a: int, b: int| 0 <= a < i && a < b < n ==> #[trigger] texts@[a]@ != #[trigger] texts@[b]@,
        decreases n - i,
    {
        let mut j: usize = i + 1;
        while j < n
            invariant
                n == texts@.len(),
                i < n,
                i < j <= n,
                forall|a: int, b: int| 0 <= a < i && a < b < n ==> #[trigger] texts@[a]@ != #[trigger] texts@[b]@,
                forall|b: int| i < b < j ==> texts@[i as int]@ != #[trigger] texts@[b]@,
            decreases n - j,
        {
            if texts[i] == texts[j] {
                return true;
            }
            j = j + 1;
        }
        i = i + 1;
    }
    false
}

proof fn lemma_entry_pairs_index(entries: Seq<ScMapEntry>, depth: int)
    ensures
        entry_pairs(entries, depth).len() == entries.len(),
        forall|k: int| 0 <= k < entries.len() ==> #[trigger] entry_pairs(entries, depth)[k] == (
            rendered(entries[k].key, depth),
            rendered(entries[k].val, depth),
        ),
    decreases entries.len(),
{
    if entries.len() > 0 {
        lemma_entry_pairs_index(entries.subrange(0, entries.len() - 1), depth);
    }
}

proof fn lemma_rendered_seq_index(items: Seq<ScValue>, depth: int)
    ensures
        rendered_seq(items, depth).len() == items.len(),
        forall|k: int| 0 <= k < items.len() ==> #[trigger] rendered_seq(items, depth)[k] == rendered(items[k], depth),
    decreases items.len(),
{
    if items.len() > 0 {
        lemma_rendered_seq_index(items.subrange(0, items.len() - 1), depth);
    }
}

/// Integers render as their exact value at any depth within the limit:
/// 32- and 64-bit ones, time points and durations as JSON numbers; 128- and
/// 256-bit ones as decimal text that reads back as the value of their
/// halves or limbs (unsigned ones without a sign).
pub proof fn law_integers_render_exactly(v: ScValue, depth: int)
    requires
        0 <= depth <= max_scval_depth(),
    ensures
        v matches ScValue::U32(x) ==> rendered(v, depth) == JsonValue::Number(x as int),
        v matches ScValue::I32(x) ==> rendered(v, depth) == JsonValue::Number(x as int),
        v matches ScValue::U64(x) ==> rendered(v, depth) == JsonValue::Number(x as int),
        v matches ScValue::I64(x) ==> rendered(v, depth) == JsonValue::Number(x as int),
        v matches ScValue::Timepoint(x) ==> rendered(v, depth) == JsonValue::Number(x as int),
        v matches ScValue::Duration(x) ==> rendered(v, depth) == JsonValue::Number(x as int),
        v matches ScValue::U128(p) ==> (rendered(v, depth) matches JsonValue::Str(t) && decimal_value(t)
            == p.hi * limb_base() + p.lo && t[0] != '-'),
        v matches ScValue::I128(p) ==> (rendered(v, depth) matches JsonValue::Str(t) && signed_decimal_value(t)
            == p.hi * limb_base() + p.lo),
        v matches ScValue::U256(p) ==> (rendered(v, depth) matches JsonValue::Str(t) && decimal_value(t)
            == ((p.hi_hi * limb_base() + p.hi_lo) * limb_base() + p.lo_hi) * limb_base() + p.lo_lo
            && t[0] != '-'),
        v matches ScValue::I256(p) ==> (rendered(v, depth) matches JsonValue::Str(t) && signed_decimal_value(t)
            == ((p.hi_hi * limb_base() + p.hi_lo) * limb_base() + p.lo_hi) * limb_base() + p.lo_lo),
{
    match v {
        ScValue::U128(p) => {
            lemma_u128_parts_nonneg(p);
            law_decimal_round_trip(u128_parts_value(p) as nat);
        },
        ScValue::I128(p) => {
            law_signed_decimal_round_trip(i128_parts_value(p));
        },
        ScValue::U256(p) => {
            lemma_u256_parts_nonneg(p);
            law_decimal_round_trip(u256_parts_value(p) as nat);
        },
        ScValue::I256(p) => {
            law_signed_decimal_round_trip(i256_parts_value(p));
        },
        _ => {},
    }
}

proof fn lemma_u128_parts_nonneg(p: UInt128Parts)
    ensures
        u128_parts_value(p) >= 0,
{
    assert(p.hi * limb_base() >= 0) by (nonlinear_arith)
        requires
            p.hi >= 0,
            limb_base() > 0,
    ;
}

proof fn lemma_u256_parts_nonneg(p: UInt256Parts)
    ensures
        u256_parts_value(p) >= 0,
{
    let b = limb_base();
    let a1 = p.hi_hi * b + p.hi_lo;
    assert(p.hi_hi * b >= 0) by (nonlinear_arith)
        requires
            p.hi_hi >= 0,
            b > 0,
    ;
    let a2 = a1 * b + p.lo_hi;
    assert(a1 * b >= 0) by (nonlinear_arith)
        requires
            a1 >= 0,
            b > 0,
    ;
    assert(a2 * b >= 0) by (nonlinear_arith)
        requires
            a2 >= 0,
            b > 0,
    ;
}

/// A value found more than `MAX_SCVAL_DEPTH` container levels deep renders
/// as the truncation marker, whatever it is; within the limit, the items of
/// a vector and the keys and values of a map are rendered one level deeper
/// than their container. Rendering starts at level 0 (`scval_to_json`), so
/// every sub-value nested more than 100 levels deep is the marker.
pub proof fn law_deep_values_are_truncated(v: ScValue, depth: int)
    ensures
        depth > max_scval_depth() ==> rendered(v, depth) == truncation_marker(),
        depth <= max_scval_depth() ==> (v matches ScValue::Vec(Some(items)) ==> (rendered(v, depth) matches JsonValue::Array(a)
            && a.len() == items@.len() && forall|i: int| 0 <= i < a.len() ==> a[i] == rendered(#[trigger] items@[i], depth + 1))),
        depth <= max_scval_depth() ==> (v matches ScValue::MapVal(Some(entries)) ==> rendered(v, depth) == map_json(
            entry_pairs(entries@, depth + 1),
        ) && forall|i: int| 0 <= i < entries@.len() ==> entry_pairs(entries@, depth + 1)[i] == (
            rendered((#[trigger] entries@[i]).key, depth + 1),
            rendered(entries@[i].val, depth + 1),
        )),
{
    match v {
        ScValue::Vec(Some(items)) => {
            lemma_rendered_seq_index(items@, depth + 1);
        },
        ScValue::MapVal(Some(entries)) => {
            lemma_entry_pairs_index(entries@, depth + 1);
        },
        _ => {},
    }
}

/// Renders map entries found at depth `depth`.
fn scmap_to_json(entries: &Vec<ScMapEntry>, depth: usize) -> (j: Json)
    requires
        depth <= 101,
    ensures
        json_view(j) == map_json(entry_pairs(entries@, depth as int)),
    decreases entries,
{
    let ghost pairs = entry_pairs(entries@, depth as int);
    proof {
        lemma_entry_pairs_index(entries@, depth as int);
    }
    let n = entries.len();
    let mut texts: Vec<String> = Vec::new();
    let mut keys: Vec<Json> = Vec::new();
    let mut vals: Vec<Json> = Vec::new();
    let mut i: usize = 0;
    while i < n
        invariant
            n == entries@.len(),
            depth <= 101,
            i <= n,
            pairs == entry_pairs(entries@, depth as int),
            pairs.len() == n,
            forall|k: int| 0 <= k < n ==> #[trigger] pairs[k] == (
                rendered(entries@[k].key, depth as int),
                rendered(entries@[k].val, depth as int),
            ),
            texts@.len() == i,
            keys@.len() == i,
            vals@.len() == i,
            forall|k: int| 0 <= k < i ==> json_view(#[trigger] keys@[k]) == pairs[k].0,
            forall|k: int| 0 <= k < i ==> json_view(#[trigger] vals@[k]) == pairs[k].1,
            forall|k: int| 0 <= k < i ==> (#[trigger] texts@[k])@ == key_string(pairs[k].0),
        decreases n - i,
    {
        proof {
            assert(decreases_to!(*entries => entries[i as int]));
            assert(decreases_to!(entries[i as int] => entries[i as int].key));
            assert(decreases_to!(entries[i as int] => entries[i as int].val));
        }
        let key_json = convert(&entries[i].key, depth);
        let val_json = convert(&entries[i].val, depth);
        let text = key_string_from_value(&key_json);
        texts.push(text);
        keys.push(key_json);
        vals.push(val_json);
        i = i + 1;
    }
    let collide = has_duplicate_text(&texts);
    proof {
        if collide {
            let (a, b) = choose|a: int, b: int| 0 <= a < b < texts@.len() && #[trigger] texts@[a]@ == #[trigger] texts@[b]@;
            assert(key_string(pairs[a].0) == key_string(pairs[b].0));
        } else {
            assert forall|a: int, b: int| 0 <= a < b < pairs.len() implies #[trigger] key_string(pairs[a].0) != #[trigger] key_string(pairs[b].0) by {
                assert(texts@[a]@ == key_string(pairs[a].0));
                assert(texts@[b]@ == key_string(pairs[b].0));
            }
        }
    }
    if collide {
        let mut out: Vec<Json> = Vec::new();
        let mut k: usize = 0;
        while k < n
            invariant
                k <= n,
                pairs.len() == n,
                keys@.len() == n - k,
                vals@.len() == n - k,
                forall|m: int| 0 <= m < n - k ==> json_view(#[trigger] keys@[m]) == pairs[m + k].0,
                forall|m: int| 0 <= m < n - k ==> json_view(#[trigger] vals@[m]) == pairs[m + k].1,
                json_seq_view(out@) == entries_array(pairs.take(k as int)),
            decreases n - k,
        {
            let kj = keys.remove(0);
            let vj = vals.remove(0);
            let ghost p = pairs[k as int];
            let obj = object2(member("key", kj), member("value", vj));
            proof {
                lemma_json_seq_view_push(out@, obj);
                assert(pairs.take(k + 1).drop_last() =~= pairs.take(k as int));
                assert(pairs.take(k + 1).last() == p);
            }
            out.push(obj);
            k = k + 1;
        }
        assert(pairs.take(n as int) =~= pairs);
        Json::Array(out)
    } else {
        let mut members: Vec<JsonMember> = Vec::new();
        let mut k: usize = 0;
        while k < n
            invariant
                k <= n,
                pairs.len() == n,
                texts@.len() == n - k,
                vals@.len() == n - k,
                forall|m: int| 0 <= m < n - k ==> (#[trigger] texts@[m])@ == key_string(pairs[m + k].0),
                forall|m: int| 0 <= m < n - k ==> json_view(#[trigger] vals@[m]) == pairs[m + k].1,
                members_view(members@) == members_from_pairs(pairs.take(k as int)),
            decreases n - k,
        {
            let kt = texts.remove(0);
            let vj = vals.remove(0);
            let ghost p = pairs[k as int];
            object_insert_member(&mut members, kt, vj);
            proof {
                assert(pairs.take(k + 1).drop_last() =~= pairs.take(k as int));
                assert(pairs.take(k + 1).last() == p);
            }
            k = k + 1;
        }
        assert(pairs.take(n as int) =~= pairs);
        Json::Object(members)
    }
}

/// Renders a value found at nesting depth `depth`.
fn convert(val: &ScValue, depth: usize) -> (j: Json)
    requires
        depth <= 101,
    ensures
        json_view(j) == rendered(*val, depth as int),
    decreases val,
{
    if depth > 100 {
        return depth_exceeded_marker();
    }
    match val {
        ScValue::Bool(b) => Json::Bool(*b),
        ScValue::Void => Json::Null,
        ScValue::Error(err) => scerror_to_json(err),
        ScValue::U32(v) => Json::Number(*v as i128),
        ScValue::I32(v) => Json::Number(*v as i128),
        ScValue::U64(v) => Json::Number(*v as i128),
        ScValue::I64(v) => Json::Number(*v as i128),
        ScValue::Timepoint(t) => Json::Number(*t as i128),
        ScValue::Duration(d) => Json::Number(*d as i128),
        ScValue::U128(parts) => Json::String(u128_to_decimal(parts)),
        ScValue::I128(parts) => Json::String(i128_to_decimal(parts)),
        ScValue::U256(parts) => Json::String(u256_to_decimal(parts)),
        ScValue::I256(parts) => Json::String(i256_to_decimal(parts)),
        ScValue::Bytes(bytes) => Json::String(bytes_to_hex(bytes.as_slice())),
        ScValue::String(s) => Json::String(string_from_utf8_lossy(s.as_slice())),
        ScValue::Symbol(sym) => Json::String(string_from_utf8_lossy(sym.as_slice())),
        ScValue::Vec(Some(items)) => {
            let mut out: Vec<Json> = Vec::new();
            let mut i: usize = 0;
            proof {
                lemma_rendered_seq_index(items@, depth + 1);
            }
            while i < items.len()
                invariant
                    depth <= 100,
                    i <= items@.len(),
                    *val == ScValue::Vec(Some(*items)),
                    rendered_seq(items@, depth + 1).len() == items@.len(),
                    forall|k: int| 0 <= k < items@.len() ==> #[trigger] rendered_seq(items@, depth + 1)[k] == rendered(items@[k], depth + 1),
                    out@.len() == i,
                    json_seq_view(out@) =~= rendered_seq(items@, depth + 1).take(i as int),
                decreases items@.len() - i,
            {
                proof {
                    assert(decreases_to!(*val => (*val)->Vec_0));
                    assert(decreases_to!((*val)->Vec_0 => (*val)->Vec_0->Some_0));
                    assert(decreases_to!(*items => items[i as int]));
                }
                let item = convert(&items[i], depth + 1);
                proof {
                    lemma_json_seq_view_push(out@, item);
                }
                out.push(item);
                i = i + 1;
            }
            assert(rendered_seq(items@, depth + 1).take(i as int) =~= rendered_seq(items@, depth + 1));
            Json::Array(out)
        },
        ScValue::Vec(None) => Json::Null,
        ScValue::MapVal(Some(entries)) => {
            proof {
                assert(decreases_to!(*val => (*val)->MapVal_0));
                assert(decreases_to!((*val)->MapVal_0 => (*val)->MapVal_0->Some_0));
            }
            scmap_to_json(entries, depth + 1)
        },
        ScValue::MapVal(None) => Json::Null,
        ScValue::Address(address) => Json::String(scaddress_to_strkey(address)),
        ScValue::ContractInstance(instance) => {
            proof {
                assert(decreases_to!(*val => (*val)->ContractInstance_0));
            }
            contract_instance_to_json(instance, depth)
        },
        ScValue::LedgerKeyContractInstance => Json::String(text_of("LedgerKeyContractInstance")),
        ScValue::LedgerKeyNonce(nonce) => object1(member("nonce", Json::Number(*nonce as i128))),
    }
}

/// Renders a contract instance found at depth `depth`: its executable and
/// its storage map one level deeper.
fn contract_instance_to_json(instance: &ScContractInstance, depth: usize) -> (j: Json)
    requires
        depth <= 100,
    ensures
        json_view(j) == rendered(ScValue::ContractInstance(*instance), depth as int),
    decreases instance,
{
    let executable = match &instance.executable {
        ContractExecutable::Wasm(hash) => object2(
            member("type", Json::String(text_of("Wasm"))),
            member("wasmHash", Json::String(bytes_to_hex(hash))),
        ),
        ContractExecutable::StellarAsset => object1(
            member("type", Json::String(text_of("StellarAsset"))),
        ),
    };
    let storage = match &instance.storage {
        Some(entries) => {
            proof {
                assert(decreases_to!(*instance => instance.storage));
                assert(decreases_to!(instance.storage => instance.storage->Some_0));
            }
            scmap_to_json(entries, depth + 1)
        },
        None => Json::Null,
    };
    object2(member("executable", executable), member("storage", storage))
}

/// Renders a Soroban value as readable JSON.
///
/// The rendering never fails: numbers stay numbers, wide integers become
/// decimal strings, bytes become `0x`-prefixed hex, addresses their StrKey,
/// maps objects keyed by their stringified keys (or entry arrays when two
/// keys stringify alike), and nesting beyond the maximum depth is replaced by
/// a truncation marker.
pub fn scval_to_json(val: &ScValue) -> (j: Json)
    ensures
        json_view(j) == rendered(*val, 0),
{
    convert(val, 0)
}

} // verus!

verus! {

proof fn lemma_members_from_pairs(pairs: Seq<(JsonValue, JsonValue)>)
    ensures
        keys_strictly_sorted(members_from_pairs(pairs)),
        forall|i: int| 0 <= i < pairs.len() ==> has_key(members_from_pairs(pairs), #[trigger] key_string(pairs[i].0)),
        forall|x: Seq<char>| #[trigger] has_key(members_from_pairs(pairs), x) ==> exists|i: int| 0 <= i < pairs.len() && key_string(pairs[i].0) == x,
        !keys_collide(pairs) ==> members_from_pairs(pairs).len() == pairs.len(),
    decreases pairs.len(),
{
    if pairs.len() > 0 {
        let prev = pairs.drop_last();
        let k = key_string(pairs.last().0);
        lemma_members_from_pairs(prev);
        let pm = members_from_pairs(prev);
        lemma_object_insert_sorted(pm, k, pairs.last().1);
        let m = members_from_pairs(pairs);
        assert forall|i: int| 0 <= i < pairs.len() implies has_key(m, #[trigger] key_string(pairs[i].0)) by {
            if i < pairs.len() - 1 {
                assert(prev[i] == pairs[i]);
                assert(has_key(pm, key_string(prev[i].0)));
            }
        }
        assert forall|x: Seq<char>| #[trigger] has_key(m, x) implies exists|i: int| 0 <= i < pairs.len() && key_string(pairs[i].0) == x by {
            if x == k {
                assert(key_string(pairs[pairs.len() - 1].0) == x);
            } else {
                assert(has_key(pm, x));
                let i = choose|i: int| 0 <= i < prev.len() && key_string(prev[i].0) == x;
                assert(prev[i] == pairs[i]);
            }
        }
        if !keys_collide(pairs) {
            if keys_collide(prev) {
                let (a, b) = choose|a: int, b: int| 0 <= a < b < prev.len() && #[trigger] key_string(prev[a].0) == #[trigger] key_string(prev[b].0);
                assert(prev[a] == pairs[a] && prev[b] == pairs[b]);
                assert(key_string(pairs[a].0) == key_string(pairs[b].0));
            }
            if has_key(pm, k) {
                let i = choose|i: int| 0 <= i < prev.len() && key_string(prev[i].0) == k;
                assert(prev[i] == pairs[i]);
                assert(key_string(pairs[i].0) == key_string(pairs[pairs.len() - 1].0));
            }
        }
    }
}

proof fn lemma_entries_array_len(pairs: Seq<(JsonValue, JsonValue)>)
    ensures
        entries_array(pairs).len() == pairs.len(),
    decreases pairs.len(),
{
    if pairs.len() > 0 {
        lemma_entries_array_len(pairs.drop_last());
    }
}

/// Without colliding keys, every entry is a member under its key string
/// with its rendered value.
proof fn lemma_members_from_pairs_values(pairs: Seq<(JsonValue, JsonValue)>)
    requires
        !keys_collide(pairs),
    ensures
        forall|i: int| 0 <= i < pairs.len() ==> has_member(members_from_pairs(pairs), key_string(#[trigger] pairs[i].0), pairs[i].1),
    decreases pairs.len(),
{
    if pairs.len() > 0 {
        let prev = pairs.drop_last();
        let last = pairs.last();
        if keys_collide(prev) {
            let (a, b) = choose|a: int, b: int| 0 <= a < b < prev.len() && #[trigger] key_string(prev[a].0) == #[trigger] key_string(prev[b].0);
            assert(prev[a] == pairs[a] && prev[b] == pairs[b]);
            assert(key_string(pairs[a].0) == key_string(pairs[b].0));
        }
        lemma_members_from_pairs_values(prev);
        lemma_object_insert_members(members_from_pairs(prev), key_string(last.0), last.1);
        assert forall|i: int| 0 <= i < pairs.len() implies has_member(members_from_pairs(pairs), key_string(#[trigger] pairs[i].0), pairs[i].1) by {
            if i < pairs.len() - 1 {
                assert(prev[i] == pairs[i]);
                assert(key_string(pairs[i].0) != key_string(pairs[pairs.len() - 1].0));
            }
        }
    }
}

/// The entry objects of a map, one per entry, in order.
proof fn lemma_entries_array_items(pairs: Seq<(JsonValue, JsonValue)>)
    ensures
        forall|i: int| 0 <= i < pairs.len() ==> entries_array(pairs)[i] == entry_object((#[trigger] pairs[i]).0, pairs[i].1),
    decreases pairs.len(),
{
    if pairs.len() > 0 {
        let prev = pairs.drop_last();
        lemma_entries_array_items(prev);
        lemma_entries_array_len(prev);
        assert forall|i: int| 0 <= i < pairs.len() implies entries_array(pairs)[i] == entry_object((#[trigger] pairs[i]).0, pairs[i].1) by {
            if i < pairs.len() - 1 {
                assert(prev[i] == pairs[i]);
            }
        }
    }
}

/// Rendering a map loses no entry: either every key stringifies differently
/// and the object has one member per entry, under its key string and with
/// its rendered value, in key order; or two keys stringify alike and the
/// array holds, in map order, one `{"key", "value"}` object per entry.
pub proof fn law_map_rendering_keeps_every_entry(pairs: Seq<(JsonValue, JsonValue)>)
    ensures
        match map_json(pairs) {
            JsonValue::Object(ms) => {
                &&& !keys_collide(pairs)
                &&& keys_strictly_sorted(ms)
                &&& ms.len() == pairs.len()
                &&& forall|i: int| 0 <= i < pairs.len() ==> has_key(ms, #[trigger] key_string(pairs[i].0))
                &&& forall|i: int| 0 <= i < pairs.len() ==> has_member(ms, key_string(#[trigger] pairs[i].0), pairs[i].1)
            },
            JsonValue::Array(items) => keys_collide(pairs) && items.len() == pairs.len() && forall|i: int|
                0 <= i < pairs.len() ==> items[i] == entry_object((#[trigger] pairs[i]).0, pairs[i].1),
            _ => false,
        },
{
    lemma_members_from_pairs(pairs);
    lemma_entries_array_len(pairs);
    lemma_entries_array_items(pairs);
    if !keys_collide(pairs) {
        lemma_members_from_pairs_values(pairs);
    }
}

} // verus!
