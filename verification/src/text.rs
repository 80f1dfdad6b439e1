//! Text building blocks: decimal and hexadecimal rendering of integers and
//! bytes, over `String` values whose view is their sequence of characters.

use vstd::prelude::*;
use vstd::utf8::{decode_utf8, valid_utf8};

verus! {

/// The character of a decimal digit.
pub open spec fn digit_char(d: int) -> char {
    (d + 48) as char
}

/// The decimal representation of a natural number, without leading zeros.
pub open spec fn decimal_digits(n: nat) -> Seq<char>
    decreases n,
{
    if n < 10 {
        seq![digit_char(n as int)]
    } else {
        decimal_digits(n / 10).push(digit_char((n % 10) as int))
    }
}

/// The decimal representation of an integer, with a leading `-` when negative.
pub open spec fn signed_decimal(v: int) -> Seq<char> {
    if v < 0 {
        seq!['-'] + decimal_digits((-v) as nat)
    } else {
        decimal_digits(v as nat)
    }
}

/// The lowercase hexadecimal character of a nibble.
pub open spec fn hex_digit(d: int) -> char {
    if d < 10 {
        (d + 48) as char
    } else {
        (d + 87) as char
    }
}

/// The two lowercase hexadecimal characters of a byte.
pub open spec fn hex_byte(b: u8) -> Seq<char> {
    seq![hex_digit((b / 16) as int), hex_digit((b % 16) as int)]
}

/// The lowercase hexadecimal rendering of a byte sequence, two characters per byte.
pub open spec fn hex_bytes(s: Seq<u8>) -> Seq<char>
    decreases s.len(),
{
    if s.len() == 0 {
        Seq::empty()
    } else {
        hex_bytes(s.drop_last()) + hex_byte(s.last())
    }
}

/// The number that a string of decimal digits denotes.
pub open spec fn decimal_value(s: Seq<char>) -> int
    decreases s.len(),
{
    if s.len() == 0 {
        0
    } else {
        decimal_value(s.drop_last()) * 10 + (s.last() as int - 48)
    }
}

/// The number that an optionally `-`-prefixed string of decimal digits denotes.
pub open spec fn signed_decimal_value(s: Seq<char>) -> int {
    if s.len() > 0 && s[0] == '-' {
        -decimal_value(s.drop_first())
    } else {
        decimal_value(s)
    }
}

/// Decimal rendering loses nothing: reading the digits back gives the number,

/// The decimal numeral of a number is canonical: only ASCII digits, with no
/// leading `0` except for zero itself, which is `"0"`.
pub proof fn law_decimal_is_canonical(n: nat)
    ensures
        forall|i: int| 0 <= i < decimal_digits(n).len() ==> '0' <= #[trigger] decimal_digits(n)[i] <= '9',
        n == 0 <==> decimal_digits(n) == seq!['0'],
        n > 0 ==> decimal_digits(n)[0] != '0',
    decreases n,
{
    if n >= 10 {
        law_decimal_is_canonical(n / 10);
        let prev = decimal_digits(n / 10);
        assert(decimal_digits(n) == prev.push(digit_char((n % 10) as int)));
        assert forall|i: int| 0 <= i < decimal_digits(n).len() implies '0' <= #[trigger] decimal_digits(n)[i] <= '9' by {
            if i < prev.len() {
                assert(decimal_digits(n)[i] == prev[i]);
            }
        }
        assert(decimal_digits(n)[0] == prev[0]);
        assert(decimal_digits(n).len() > 1);
        assert(decimal_digits(n).len() != seq!['0'].len());
    } else {
        assert(decimal_digits(n) == seq![digit_char(n as int)]);
        assert(digit_char(0) == '0');
        if n > 0 {
            assert(decimal_digits(n)[0] != seq!['0'][0]);
        } else {
            assert(decimal_digits(n) =~= seq!['0']);
        }
    }
}

/// and the rendering is never empty and never starts with `-`.
pub proof fn law_decimal_round_trip(n: nat)
    ensures
        decimal_value(decimal_digits(n)) == n,
        decimal_digits(n).len() > 0,
        decimal_digits(n)[0] != '-',
    decreases n,
{
    let d = (n % 10) as int;
    assert(digit_char(d) as int == d + 48);
    if n >= 10 {
        law_decimal_round_trip(n / 10);
        assert(decimal_digits(n).drop_last() =~= decimal_digits(n / 10));
        assert(decimal_digits(n)[0] == decimal_digits(n / 10)[0]);
        assert(decimal_digits(n).last() == digit_char(d));
        assert(decimal_value(decimal_digits(n)) == (n / 10) * 10 + d);
        assert(n == (n / 10) * 10 + d);
    } else {
        assert(decimal_digits(n).drop_last() =~= Seq::<char>::empty());
        assert(decimal_digits(n).last() == digit_char(d));
        assert(decimal_value(Seq::<char>::empty()) == 0);
        assert(decimal_value(decimal_digits(n)) == d);
        assert(d == n);
    }
}

/// Signed decimal rendering loses nothing: reading it back gives the integer.
pub proof fn law_signed_decimal_round_trip(v: int)
    ensures
        signed_decimal_value(signed_decimal(v)) == v,
{
    if v < 0 {
        law_decimal_round_trip((-v) as nat);
        assert((seq!['-'] + decimal_digits((-v) as nat)).drop_first() =~= decimal_digits((-v) as nat));
    } else {
        law_decimal_round_trip(v as nat);
    }
}

/// The text that `String::from_utf8_lossy` makes of a byte sequence.
pub uninterp spec fn utf8_lossy(bytes: Seq<u8>) -> Seq<char>;

/// Decodes bytes as UTF-8 with `String::from_utf8_lossy`, which replaces each
/// invalid sequence with U+FFFD. The contract names the result and states
/// what the documentation gives: valid UTF-8 decodes to its characters.
#[verifier::external_body]
pub(crate) fn string_from_utf8_lossy(bytes: &[u8]) -> (s: String)
    ensures
        s@ == utf8_lossy(bytes@),
        valid_utf8(bytes@) ==> s@ == decode_utf8(bytes@),
{
    String::from_utf8_lossy(bytes).into_owned()
}

/// The text that `str::to_lowercase` makes of a string.
pub uninterp spec fn lowercase(s: Seq<char>) -> Seq<char>;

/// Whether every character is ASCII.
pub open spec fn is_ascii_text(s: Seq<char>) -> bool {
    forall|i: int| 0 <= i < s.len() ==> (#[trigger] s[i] as u32) < 128
}

/// The ASCII lowercase of a character: `A`..`Z` become `a`..`z`, every other
/// character stays.
pub open spec fn ascii_lower_char(c: char) -> char {
    if 'A' <= c <= 'Z' {
        ((c as u32) + 32) as char
    } else {
        c
    }
}

/// The ASCII lowercase of a string, character for character.
pub open spec fn ascii_lowercase(s: Seq<char>) -> Seq<char> {
    s.map_values(|c: char| ascii_lower_char(c))
}

/// Lowercases a string with `str::to_lowercase`, which follows the Unicode
/// `Lowercase` property, so one character may become several. The contract
/// names the result; of the mapping it states only what holds for ASCII
/// text, where the Unicode lowercase of `A`..`Z` is `a`..`z` and every other
/// ASCII character is its own lowercase.
#[verifier::external_body]
pub(crate) fn str_to_lowercase(s: &str) -> (r: String)
    ensures
        r@ == lowercase(s@),
        is_ascii_text(s@) ==> r@ == ascii_lowercase(s@),
{
    s.to_lowercase()
}

/// Whether two strings hold the same characters.
pub fn str_equals(a: &str, b: &str) -> (res: bool)
    ensures
        res == (a@ == b@),
{
    let n = a.unicode_len();
    if n != b.unicode_len() {
        return false;
    }
    let mut i: usize = 0;
    while i < n
        invariant
            n == a@.len(),
            n == b@.len(),
            i <= n,
            a@.take(i as int) == b@.take(i as int),
        decreases n - i,
    {
        if a.get_char(i) != b.get_char(i) {
            assert(a@[i as int] != b@[i as int]);
            return false;
        }
        assert(a@.take(i + 1) =~= a@.take(i as int).push(a@[i as int]));
        assert(b@.take(i + 1) =~= b@.take(i as int).push(b@[i as int]));
        i = i + 1;
    }
    assert(a@.take(n as int) =~= a@);
    assert(b@.take(n as int) =~= b@);
    true
}

/// The text that the `Display` of an XDR string (`stellar_xdr`'s `StringM`)
/// makes of its bytes.
pub uninterp spec fn xdr_string_display(bytes: Seq<u8>) -> Seq<char>;

/// Whether bytes are printable ASCII other than the backslash: the bytes
/// that `StringM`'s `Display` shows as themselves.
pub open spec fn plain_ascii(b: Seq<u8>) -> bool {
    forall|i: int| 0 <= i < b.len() ==> 0x20 <= #[trigger] b[i] <= 0x7e && b[i] != 0x5c
}

/// Bytes read as the ASCII characters they encode.
pub open spec fn ascii_chars(b: Seq<u8>) -> Seq<char> {
    b.map_values(|x: u8| x as char)
}

/// The text of an XDR string or symbol: plain ASCII as itself, anything
/// else as `StringM`'s `Display` escapes it.
pub open spec fn xdr_text(b: Seq<u8>) -> Seq<char> {
    if plain_ascii(b) && b.len() <= u32::MAX {
        ascii_chars(b)
    } else {
        xdr_string_display(b)
    }
}

/// Renders the bytes of an XDR string or symbol with `StringM`'s `Display`,
/// which writes printable ASCII other than the backslash as it is and
/// escapes every other byte (the `escape-bytes` crate's `Escape`). The
/// contract names the result and states that plain ASCII is kept; it states
/// nothing more of the escaping.
#[verifier::external_body]
pub(crate) fn xdr_string_to_string(bytes: &[u8]) -> (s: String)
    ensures
        s@ == xdr_string_display(bytes@),
        plain_ascii(bytes@) && bytes@.len() <= u32::MAX ==> s@ == ascii_chars(bytes@),
{
    match stellar_xdr::curr::StringM::<4294967295>::try_from(bytes.to_vec()) {
        Ok(m) => m.to_string(),
        Err(_) => String::new(),
    }
}

/// Appends one character to a string (`String::push`).
#[verifier::external_body]
pub(crate) fn push_char(s: &mut String, c: char)
    ensures
        final(s)@ == old(s)@.push(c),
{
    s.push(c);
}

/// The character of a decimal digit.
pub fn digit_to_char(d: u8) -> (c: char)
    requires
        d < 10,
    ensures
        c == digit_char(d as int),
{
    (d + 48) as char
}

/// The lowercase hexadecimal character of a nibble.
pub fn nibble_to_char(d: u8) -> (c: char)
    requires
        d < 16,
    ensures
        c == hex_digit(d as int),
{
    if d < 10 {
        (d + 48) as char
    } else {
        (d + 87) as char
    }
}

/// Appends the decimal representation of `n` to `s`.
pub fn push_decimal_u128(s: &mut String, n: u128)
    ensures
        final(s)@ == old(s)@ + decimal_digits(n as nat),
    decreases n,
{
    if n >= 10 {
        push_decimal_u128(s, n / 10);
    }
    push_char(s, digit_to_char((n % 10) as u8));
    proof {
        if n < 10 {
            assert(n % 10 == n);
        }
    }
}

/// The decimal representation of an unsigned 64-bit integer.
pub fn u64_to_decimal(n: u64) -> (s: String)
    ensures
        s@ == decimal_digits(n as nat),
{
    let mut s = String::new();
    push_decimal_u128(&mut s, n as u128);
    s
}

/// Appends the decimal representation of a signed integer to `s`.
pub fn push_decimal_i128(s: &mut String, v: i128)
    ensures
        final(s)@ == old(s)@ + signed_decimal(v as int),
{
    if v < 0 {
        push_char(s, '-');
        let magnitude: u128 = ((-(v + 1)) as u128) + 1;
        push_decimal_u128(s, magnitude);
        assert(final(s)@ == old(s)@ + signed_decimal(v as int)) by {
            assert(seq!['-'] + decimal_digits(magnitude as nat) =~= seq![].push('-') + decimal_digits(magnitude as nat));
        }
    } else {
        push_decimal_u128(s, v as u128);
    }
}

/// The decimal representation of a signed 64-bit integer.
pub fn i64_to_decimal(v: i64) -> (s: String)
    ensures
        s@ == signed_decimal(v as int),
{
    let mut s = String::new();
    push_decimal_i128(&mut s, v as i128);
    s
}

/// Appends the two lowercase hexadecimal characters of each byte to `s`.
pub fn push_hex(s: &mut String, bytes: &[u8])
    ensures
        final(s)@ == old(s)@ + hex_bytes(bytes@),
{
    let ghost start = s@;
    let mut i: usize = 0;
    while i < bytes.len()
        invariant
            i <= bytes@.len(),
            s@ == start + hex_bytes(bytes@.take(i as int)),
        decreases bytes@.len() - i,
    {
        let b = bytes[i];
        push_char(s, nibble_to_char(b / 16));
        push_char(s, nibble_to_char(b % 16));
        proof {
            assert(bytes@.take(i + 1).drop_last() =~= bytes@.take(i as int));
            assert(bytes@.take(i + 1).last() == b);
        }
        i = i + 1;
    }
    assert(bytes@.take(i as int) =~= bytes@);
}

} // verus!
