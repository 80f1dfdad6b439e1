//! A JSON document model: the library's values, their mathematical view, and
//! their compact text.
//!
//! Objects keep their members ordered by key, as a map sorted by key does, so
//! that a rendered object has exactly one member per key and its text lists
//! the members in key order.

use vstd::prelude::*;
use crate::text::{hex_digit, nibble_to_char, push_char, push_decimal_i128, signed_decimal, str_equals};

verus! {

/// A JSON value.
#[derive(Debug, PartialEq)]
pub enum Json {
    Null,
    Bool(bool),
    Number(i128),
    String(String),
    Array(Vec<Json>),
    Object(Vec<JsonMember>),
}

/// One member of a JSON object.
#[derive(Debug, PartialEq)]
pub struct JsonMember {
    pub key: String,
    pub value: Json,
}

/// The mathematical view of a JSON value.
pub enum JsonValue {
    Null,
    Bool(bool),
    Number(int),
    Str(Seq<char>),
    Array(Seq<JsonValue>),
    Object(Seq<(Seq<char>, JsonValue)>),
}

/// The view of a JSON value.
pub open spec fn json_view(j: Json) -> JsonValue
    decreases j,
{
    match j {
        Json::Null => JsonValue::Null,
        Json::Bool(b) => JsonValue::Bool(b),
        Json::Number(n) => JsonValue::Number(n as int),
        Json::String(s) => JsonValue::Str(s@),
        Json::Array(items) => JsonValue::Array(json_seq_view(items@)),
        Json::Object(members) => JsonValue::Object(members_view(members@)),
    }
}

/// The views of a sequence of JSON values.
pub open spec fn json_seq_view(s: Seq<Json>) -> Seq<JsonValue>
    decreases s,
{
    if s.len() == 0 {
        Seq::empty()
    } else {
        json_seq_view(s.subrange(0, s.len() - 1)).push(json_view(s[s.len() - 1]))
    }
}

/// The views of a sequence of object members.
pub open spec fn members_view(s: Seq<JsonMember>) -> Seq<(Seq<char>, JsonValue)>
    decreases s,
{
    if s.len() == 0 {
        Seq::empty()
    } else {
        members_view(s.subrange(0, s.len() - 1)).push(
            (s[s.len() - 1].key@, json_view(s[s.len() - 1].value)),
        )
    }
}

/// Lexicographic order of character sequences by code point, which is the
/// order of their UTF-8 encodings.
pub open spec fn chars_lt(a: Seq<char>, b: Seq<char>) -> bool
    decreases a.len(),
{
    if a.len() == 0 {
        b.len() > 0
    } else if b.len() == 0 {
        false
    } else if (a[0] as int) < (b[0] as int) {
        true
    } else if a[0] == b[0] {
        chars_lt(a.drop_first(), b.drop_first())
    } else {
        false
    }
}

/// Inserting a member into an object ordered by key: the member goes before
/// the first larger key, and replaces the value of an equal key.
pub open spec fn object_insert(
    m: Seq<(Seq<char>, JsonValue)>,
    k: Seq<char>,
    v: JsonValue,
) -> Seq<(Seq<char>, JsonValue)>
    decreases m.len(),
{
    if m.len() == 0 {
        seq![(k, v)]
    } else if chars_lt(m[0].0, k) {
        seq![m[0]] + object_insert(m.drop_first(), k, v)
    } else if m[0].0 == k {
        m.update(0, (k, v))
    } else {
        seq![(k, v)] + m
    }
}

/// The JSON escape of one character inside a string literal.
pub open spec fn char_escape(c: char) -> Seq<char> {
    if c == '"' {
        seq!['\\', '"']
    } else if c == '\\' {
        seq!['\\', '\\']
    } else if c == '\u{8}' {
        seq!['\\', 'b']
    } else if c == '\u{c}' {
        seq!['\\', 'f']
    } else if c == '\n' {
        seq!['\\', 'n']
    } else if c == '\r' {
        seq!['\\', 'r']
    } else if c == '\t' {
        seq!['\\', 't']
    } else if (c as int) < 0x20 {
        seq!['\\', 'u', '0', '0', hex_digit((c as int) / 16), hex_digit((c as int) % 16)]
    } else {
        seq![c]
    }
}

/// The escaped body of a string literal.
pub open spec fn escape_chars(s: Seq<char>) -> Seq<char>
    decreases s.len(),
{
    if s.len() == 0 {
        Seq::empty()
    } else {
        escape_chars(s.drop_last()) + char_escape(s.last())
    }
}

/// A quoted, escaped JSON string literal.
pub open spec fn quoted(s: Seq<char>) -> Seq<char> {
    seq!['"'] + escape_chars(s) + seq!['"']
}

/// The compact JSON text of a value: no whitespace, members in their order.
pub open spec fn json_text(v: JsonValue) -> Seq<char>
    decreases v,
{
    match v {
        JsonValue::Null => seq!['n', 'u', 'l', 'l'],
        JsonValue::Bool(b) => if b {
            seq!['t', 'r', 'u', 'e']
        } else {
            seq!['f', 'a', 'l', 's', 'e']
        },
        JsonValue::Number(n) => signed_decimal(n),
        JsonValue::Str(s) => quoted(s),
        JsonValue::Array(items) => seq!['['] + items_text(items) + seq![']'],
        JsonValue::Object(members) => seq!['{'] + members_text(members) + seq!['}'],
    }
}

/// The texts of array items, separated by commas.
pub open spec fn items_text(s: Seq<JsonValue>) -> Seq<char>
    decreases s,
{
    if s.len() == 0 {
        Seq::empty()
    } else if s.len() == 1 {
        json_text(s[0])
    } else {
        items_text(s.subrange(0, s.len() - 1)) + seq![','] + json_text(s[s.len() - 1])
    }
}

/// The texts of object members, `"key":value`, separated by commas.
pub open spec fn members_text(s: Seq<(Seq<char>, JsonValue)>) -> Seq<char>
    decreases s,
{
    if s.len() == 0 {
        Seq::empty()
    } else if s.len() == 1 {
        quoted(s[0].0) + seq![':'] + json_text(s[0].1)
    } else {
        members_text(s.subrange(0, s.len() - 1)) + seq![','] + quoted(s[s.len() - 1].0) + seq![':']
            + json_text(s[s.len() - 1].1)
    }
}

pub proof fn lemma_json_seq_view_push(s: Seq<Json>, x: Json)
    ensures
        json_seq_view(s.push(x)) == json_seq_view(s).push(json_view(x)),
{
    assert(s.push(x).subrange(0, s.len() as int) =~= s);
}

pub proof fn lemma_members_view_push(s: Seq<JsonMember>, x: JsonMember)
    ensures
        members_view(s.push(x)) == members_view(s).push((x.key@, json_view(x.value))),
{
    assert(s.push(x).subrange(0, s.len() as int) =~= s);
}

/// The views of members are taken member by member.
pub proof fn lemma_members_view_index(s: Seq<JsonMember>)
    ensures
        members_view(s).len() == s.len(),
        forall|i: int| 0 <= i < s.len() ==> #[trigger] members_view(s)[i] == (s[i].key@, json_view(s[i].value)),
    decreases s.len(),
{
    if s.len() > 0 {
        lemma_members_view_index(s.subrange(0, s.len() - 1));
    }
}

/// The views of JSON values are taken value by value.
pub proof fn lemma_json_seq_view_index(s: Seq<Json>)
    ensures
        json_seq_view(s).len() == s.len(),
        forall|i: int| 0 <= i < s.len() ==> #[trigger] json_seq_view(s)[i] == json_view(s[i]),
    decreases s.len(),
{
    if s.len() > 0 {
        lemma_json_seq_view_index(s.subrange(0, s.len() - 1));
    }
}

/// Inserting at the position of the first key that is not smaller.
proof fn lemma_object_insert_at(m: Seq<(Seq<char>, JsonValue)>, k: Seq<char>, v: JsonValue, i: int)
    requires
        0 <= i <= m.len(),
        forall|j: int| 0 <= j < i ==> chars_lt(#[trigger] m[j].0, k),
        i < m.len() ==> !chars_lt(m[i].0, k),
    ensures
        object_insert(m, k, v) == if i < m.len() && m[i].0 == k {
            m.update(i, (k, v))
        } else {
            m.insert(i, (k, v))
        },
    decreases i,
{
    if i > 0 {
        assert(chars_lt(m[0].0, k));
        let t = m.drop_first();
        assert forall|j: int| 0 <= j < i - 1 implies chars_lt(#[trigger] t[j].0, k) by {
            assert(t[j] == m[j + 1]);
        }
        lemma_object_insert_at(t, k, v, i - 1);
        if i < m.len() && m[i].0 == k {
            assert(seq![m[0]] + t.update(i - 1, (k, v)) =~= m.update(i, (k, v)));
        } else {
            assert(seq![m[0]] + t.insert(i - 1, (k, v)) =~= m.insert(i, (k, v)));
        }
    } else {
        if m.len() == 0 {
            assert(seq![(k, v)] =~= m.insert(0, (k, v)));
        } else if m[0].0 == k {
        } else {
            assert(seq![(k, v)] + m =~= m.insert(0, (k, v)));
        }
    }
}

/// Whether `a` comes before `b` in code-point lexicographic order.
pub fn str_lt(a: &str, b: &str) -> (res: bool)
    ensures
        res == chars_lt(a@, b@),
{
    let na = a.unicode_len();
    let nb = b.unicode_len();
    let mut i: usize = 0;
    assert(a@.skip(0) =~= a@);
    assert(b@.skip(0) =~= b@);
    loop
        invariant
            na == a@.len(),
            nb == b@.len(),
            i <= na,
            i <= nb,
            chars_lt(a@, b@) == chars_lt(a@.skip(i as int), b@.skip(i as int)),
        decreases na - i,
    {
        if i == na {
            return i < nb;
        }
        if i == nb {
            return false;
        }
        let ca = a.get_char(i);
        let cb = b.get_char(i);
        if (ca as u32) < (cb as u32) {
            return true;
        }
        if ca != cb {
            return false;
        }
        proof {
            assert(a@.skip(i as int).drop_first() =~= a@.skip(i + 1));
            assert(b@.skip(i as int).drop_first() =~= b@.skip(i + 1));
        }
        i = i + 1;
    }
}

/// Inserts a member into an object ordered by key, replacing the value of an
/// equal key, as a map sorted by key does.
pub fn object_insert_member(members: &mut Vec<JsonMember>, key: String, value: Json)
    ensures
        members_view(final(members)@) == object_insert(members_view(old(members)@), key@, json_view(value)),
{
    let ghost m = members_view(members@);
    proof {
        lemma_members_view_index(members@);
    }
    let mut i: usize = 0;
    while i < members.len() && str_lt(members[i].key.as_str(), key.as_str())
        invariant
            i <= members@.len(),
            m == members_view(members@),
            members_view(members@).len() == members@.len(),
            forall|j: int| 0 <= j < members@.len() ==> #[trigger] members_view(members@)[j] == (members@[j].key@, json_view(members@[j].value)),
            forall|j: int| 0 <= j < i ==> chars_lt(#[trigger] m[j].0, key@),
        decreases members@.len() - i,
    {
        i = i + 1;
    }
    let ghost kv = key@;
    let ghost vv = json_view(value);
    proof {
        lemma_object_insert_at(m, kv, vv, i as int);
    }
    if i < members.len() && members[i].key == key {
        let ghost old_members = members@;
        members.set(i, JsonMember { key, value });
        proof {
            lemma_members_view_index(members@);
            assert(members_view(members@) =~= m.update(i as int, (kv, vv)));
        }
    } else {
        let ghost old_members = members@;
        members.insert(i, JsonMember { key, value });
        proof {
            lemma_members_view_index(members@);
            assert(members_view(members@) =~= m.insert(i as int, (kv, vv)));
        }
    }
}

/// Appends the JSON escape of one character to `out`.
fn push_char_escaped(out: &mut String, c: char)
    ensures
        final(out)@ == old(out)@ + char_escape(c),
{
    if c == '"' {
        push_char(out, '\\');
        push_char(out, '"');
    } else if c == '\\' {
        push_char(out, '\\');
        push_char(out, '\\');
    } else if c == '\u{8}' {
        push_char(out, '\\');
        push_char(out, 'b');
    } else if c == '\u{c}' {
        push_char(out, '\\');
        push_char(out, 'f');
    } else if c == '\n' {
        push_char(out, '\\');
        push_char(out, 'n');
    } else if c == '\r' {
        push_char(out, '\\');
        push_char(out, 'r');
    } else if c == '\t' {
        push_char(out, '\\');
        push_char(out, 't');
    } else if (c as u32) < 0x20 {
        let code = c as u32;
        push_char(out, '\\');
        push_char(out, 'u');
        push_char(out, '0');
        push_char(out, '0');
        push_char(out, nibble_to_char((code / 16) as u8));
        push_char(out, nibble_to_char((code % 16) as u8));
    } else {
        push_char(out, c);
    }
    proof {
        assert(final(out)@ =~= old(out)@ + char_escape(c));
    }
}

/// Appends a quoted, escaped JSON string literal to `out`.
pub fn push_quoted(out: &mut String, s: &str)
    ensures
        final(out)@ == old(out)@ + quoted(s@),
{
    let ghost start = out@;
    push_char(out, '"');
    let n = s.unicode_len();
    let mut i: usize = 0;
    while i < n
        invariant
            n == s@.len(),
            i <= n,
            out@ == start + seq!['"'] + escape_chars(s@.take(i as int)),
        decreases n - i,
    {
        let c = s.get_char(i);
        push_char_escaped(out, c);
        proof {
            assert(s@.take(i + 1).drop_last() =~= s@.take(i as int));
            assert(s@.take(i + 1).last() == c);
        }
        i = i + 1;
    }
    push_char(out, '"');
    proof {
        assert(s@.take(n as int) =~= s@);
        assert(out@ =~= start + quoted(s@));
    }
}

/// Appends the compact JSON text of a value to `out`.
pub fn push_json_text(out: &mut String, j: &Json)
    ensures
        final(out)@ == old(out)@ + json_text(json_view(*j)),
    decreases j,
{
    let ghost start = out@;
    match j {
        Json::Null => {
            out.append("null");
            proof { reveal_strlit("null"); }
            assert(out@ =~= start + json_text(json_view(*j)));
        },
        Json::Bool(b) => {
            if *b {
                out.append("true");
                proof { reveal_strlit("true"); }
            } else {
                out.append("false");
                proof { reveal_strlit("false"); }
            }
            assert(out@ =~= start + json_text(json_view(*j)));
        },
        Json::Number(n) => {
            push_decimal_i128(out, *n);
        },
        Json::String(s) => {
            push_quoted(out, s.as_str());
        },
        Json::Array(items) => {
            push_char(out, '[');
            let mut i: usize = 0;
            while i < items.len()
                invariant
                    i <= items@.len(),
                    *j == Json::Array(*items),
                    out@ == start + seq!['['] + items_text(json_seq_view(items@.take(i as int))),
                    json_seq_view(items@.take(i as int)).len() == i,
                decreases items@.len() - i,
            {
                proof {
                    assert(items@.take(i + 1).subrange(0, i as int) =~= items@.take(i as int));
                    assert(json_seq_view(items@.take(i + 1)) == json_seq_view(items@.take(i as int)).push(json_view(items@[i as int])));
                    assert(json_seq_view(items@.take(i + 1)).subrange(0, i as int) =~= json_seq_view(items@.take(i as int)));
                }
                if i > 0 {
                    push_char(out, ',');
                }
                proof {
                    assert(decreases_to!(*j => (*j)->Array_0));
                    assert(decreases_to!(*items => items[i as int]));
                }
                push_json_text(out, &items[i]);
                i = i + 1;
                proof {
                    if i == 1 {
                        assert(out@ =~= start + seq!['['] + items_text(json_seq_view(items@.take(i as int))));
                    } else {
                        assert(out@ =~= start + seq!['['] + items_text(json_seq_view(items@.take(i as int))));
                    }
                }
            }
            push_char(out, ']');
            assert(items@.take(i as int) =~= items@);
            assert(out@ =~= start + json_text(json_view(*j)));
        },
        Json::Object(members) => {
            push_char(out, '{');
            let mut i: usize = 0;
            while i < members.len()
                invariant
                    i <= members@.len(),
                    *j == Json::Object(*members),
                    out@ == start + seq!['{'] + members_text(members_view(members@.take(i as int))),
                    members_view(members@.take(i as int)).len() == i,
                decreases members@.len() - i,
            {
                proof {
                    assert(members@.take(i + 1).subrange(0, i as int) =~= members@.take(i as int));
                    assert(members_view(members@.take(i + 1)).subrange(0, i as int) =~= members_view(members@.take(i as int)));
                }
                if i > 0 {
                    push_char(out, ',');
                }
                push_quoted(out, members[i].key.as_str());
                push_char(out, ':');
                proof {
                    assert(decreases_to!(*j => (*j)->Object_0));
                    assert(decreases_to!(*members => members[i as int]));
                    assert(decreases_to!(members[i as int] => members[i as int].value));
                }
                push_json_text(out, &members[i].value);
                i = i + 1;
                proof {
                    assert(out@ =~= start + seq!['{'] + members_text(members_view(members@.take(i as int))));
                }
            }
            push_char(out, '}');
            assert(members@.take(i as int) =~= members@);
            assert(out@ =~= start + json_text(json_view(*j)));
        },
    }
}

/// The compact JSON text of a value.
pub fn to_json_text(j: &Json) -> (s: String)
    ensures
        s@ == json_text(json_view(*j)),
{
    let mut s = String::new();
    push_json_text(&mut s, j);
    s
}

} // verus!

verus! {

/// Whether an object's members are in strictly increasing key order, so that
/// each key occurs once.
pub open spec fn keys_strictly_sorted(m: Seq<(Seq<char>, JsonValue)>) -> bool {
    forall|i: int, j: int| 0 <= i < j < m.len() ==> chars_lt(#[trigger] m[i].0, #[trigger] m[j].0)
}

/// Whether an object has a member with key `k`.
pub open spec fn has_key(m: Seq<(Seq<char>, JsonValue)>, k: Seq<char>) -> bool {
    exists|i: int| 0 <= i < m.len() && #[trigger] m[i].0 == k
}

/// Whether an object has the member `k` with value `v`.
pub open spec fn has_member(m: Seq<(Seq<char>, JsonValue)>, k: Seq<char>, v: JsonValue) -> bool {
    exists|i: int| 0 <= i < m.len() && #[trigger] m[i] == (k, v)
}

/// Inserting a member sets its value and keeps every member with another key.
pub proof fn lemma_object_insert_members(m: Seq<(Seq<char>, JsonValue)>, k: Seq<char>, v: JsonValue)
    ensures
        has_member(object_insert(m, k, v), k, v),
        forall|x: Seq<char>, w: JsonValue| x != k ==> (#[trigger] has_member(object_insert(m, k, v), x, w)
            <==> has_member(m, x, w)),
    decreases m.len(),
{
    let r = object_insert(m, k, v);
    if m.len() == 0 {
        assert(r[0] == (k, v));
    } else if chars_lt(m[0].0, k) {
        let rest = m.drop_first();
        lemma_object_insert_members(rest, k, v);
        let ri = object_insert(rest, k, v);
        let j = choose|j: int| 0 <= j < ri.len() && #[trigger] ri[j] == (k, v);
        assert(r[j + 1] == ri[j]);
        assert forall|x: Seq<char>, w: JsonValue| x != k implies (#[trigger] has_member(r, x, w) <==> has_member(m, x, w)) by {
            if has_member(r, x, w) {
                let i = choose|i: int| 0 <= i < r.len() && #[trigger] r[i] == (x, w);
                if i == 0 {
                    assert(m[0] == (x, w));
                } else {
                    assert(ri[i - 1] == (x, w));
                    assert(has_member(ri, x, w));
                    assert(has_member(rest, x, w));
                    let q = choose|q: int| 0 <= q < rest.len() && #[trigger] rest[q] == (x, w);
                    assert(m[q + 1] == rest[q]);
                }
            }
            if has_member(m, x, w) {
                let i = choose|i: int| 0 <= i < m.len() && #[trigger] m[i] == (x, w);
                if i == 0 {
                    assert(r[0] == (x, w));
                } else {
                    assert(rest[i - 1] == (x, w));
                    assert(has_member(rest, x, w));
                    assert(has_member(ri, x, w));
                    let q = choose|q: int| 0 <= q < ri.len() && #[trigger] ri[q] == (x, w);
                    assert(r[q + 1] == ri[q]);
                }
            }
        }
    } else if m[0].0 == k {
        assert(r[0] == (k, v));
        assert forall|x: Seq<char>, w: JsonValue| x != k implies (#[trigger] has_member(r, x, w) <==> has_member(m, x, w)) by {
            if has_member(r, x, w) {
                let i = choose|i: int| 0 <= i < r.len() && #[trigger] r[i] == (x, w);
                assert(m[i] == r[i]);
            }
            if has_member(m, x, w) {
                let i = choose|i: int| 0 <= i < m.len() && #[trigger] m[i] == (x, w);
                assert(r[i] == m[i]);
            }
        }
    } else {
        assert(r[0] == (k, v));
        assert forall|x: Seq<char>, w: JsonValue| x != k implies (#[trigger] has_member(r, x, w) <==> has_member(m, x, w)) by {
            if has_member(r, x, w) {
                let i = choose|i: int| 0 <= i < r.len() && #[trigger] r[i] == (x, w);
                assert(m[i - 1] == r[i]);
            }
            if has_member(m, x, w) {
                let i = choose|i: int| 0 <= i < m.len() && #[trigger] m[i] == (x, w);
                assert(r[i + 1] == m[i]);
            }
        }
    }
}

/// No sequence comes before itself.
pub proof fn lemma_chars_lt_irreflexive(a: Seq<char>)
    ensures
        !chars_lt(a, a),
    decreases a.len(),
{
    if a.len() > 0 {
        lemma_chars_lt_irreflexive(a.drop_first());
    }
}

/// The order of character sequences is transitive.
pub proof fn lemma_chars_lt_transitive(a: Seq<char>, b: Seq<char>, c: Seq<char>)
    requires
        chars_lt(a, b),
        chars_lt(b, c),
    ensures
        chars_lt(a, c),
    decreases a.len(),
{
    if a.len() > 0 && b.len() > 0 && c.len() > 0 {
        if a[0] == b[0] && b[0] == c[0] {
            lemma_chars_lt_transitive(a.drop_first(), b.drop_first(), c.drop_first());
        }
    }
}

/// Two different sequences are ordered one way or the other.
pub proof fn lemma_chars_lt_total(a: Seq<char>, b: Seq<char>)
    requires
        a != b,
    ensures
        chars_lt(a, b) || chars_lt(b, a),
    decreases a.len(),
{
    if a.len() > 0 && b.len() > 0 && a[0] == b[0] {
        if a.drop_first() == b.drop_first() {
            assert(a =~= seq![a[0]] + a.drop_first());
            assert(b =~= seq![b[0]] + b.drop_first());
        }
        lemma_chars_lt_total(a.drop_first(), b.drop_first());
    } else if a.len() == 0 && b.len() == 0 {
        assert(a =~= b);
    }
}

/// What inserting into an ordered object guarantees.
pub open spec fn insert_keeps_order(m: Seq<(Seq<char>, JsonValue)>, k: Seq<char>, v: JsonValue) -> bool {
    let r = object_insert(m, k, v);
    &&& keys_strictly_sorted(r)
    &&& has_key(r, k)
    &&& forall|x: Seq<char>| x != k ==> (has_key(r, x) <==> has_key(m, x))
    &&& r.len() == if has_key(m, k) { m.len() } else { m.len() + 1 }
}

proof fn lemma_insert_before_first(m: Seq<(Seq<char>, JsonValue)>, k: Seq<char>, v: JsonValue)
    requires
        keys_strictly_sorted(m),
        m.len() > 0,
        !chars_lt(m[0].0, k),
        m[0].0 != k,
    ensures
        insert_keeps_order(m, k, v),
{
    let r = object_insert(m, k, v);
    lemma_chars_lt_total(m[0].0, k);
    assert(r =~= seq![(k, v)] + m);
    assert forall|i: int, j: int| 0 <= i < j < r.len() implies chars_lt(#[trigger] r[i].0, #[trigger] r[j].0) by {
        if i == 0 {
            assert(r[j] == m[j - 1]);
            if j - 1 > 0 {
                lemma_chars_lt_transitive(k, m[0].0, m[j - 1].0);
            }
        } else {
            assert(r[i] == m[i - 1] && r[j] == m[j - 1]);
        }
    }
    assert(r[0].0 == k);
    assert forall|x: Seq<char>| x != k implies (has_key(r, x) <==> has_key(m, x)) by {
        if has_key(r, x) {
            let j = choose|j: int| 0 <= j < r.len() && #[trigger] r[j].0 == x;
            assert(m[j - 1].0 == x);
        }
        if has_key(m, x) {
            let j = choose|j: int| 0 <= j < m.len() && #[trigger] m[j].0 == x;
            assert(r[j + 1].0 == x);
        }
    }
    if has_key(m, k) {
        let i = choose|i: int| 0 <= i < m.len() && #[trigger] m[i].0 == k;
        assert(i != 0);
        lemma_chars_lt_transitive(k, m[0].0, m[i].0);
        lemma_chars_lt_irreflexive(k);
    }
}

proof fn lemma_insert_at_first(m: Seq<(Seq<char>, JsonValue)>, k: Seq<char>, v: JsonValue)
    requires
        keys_strictly_sorted(m),
        m.len() > 0,
        m[0].0 == k,
    ensures
        insert_keeps_order(m, k, v),
{
    let r = object_insert(m, k, v);
    lemma_chars_lt_irreflexive(k);
    assert(r == m.update(0, (k, v)));
    assert(has_key(m, k));
    assert forall|i: int, j: int| 0 <= i < j < r.len() implies chars_lt(#[trigger] r[i].0, #[trigger] r[j].0) by {
        assert(r[i].0 == m[i].0 && r[j].0 == m[j].0);
    }
    assert(r[0].0 == k);
    assert forall|x: Seq<char>| x != k implies (has_key(r, x) <==> has_key(m, x)) by {
        if has_key(r, x) {
            let j = choose|j: int| 0 <= j < r.len() && #[trigger] r[j].0 == x;
            assert(m[j].0 == x);
        }
        if has_key(m, x) {
            let j = choose|j: int| 0 <= j < m.len() && #[trigger] m[j].0 == x;
            assert(r[j].0 == x);
        }
    }
}

proof fn lemma_insert_after_first(m: Seq<(Seq<char>, JsonValue)>, k: Seq<char>, v: JsonValue)
    requires
        keys_strictly_sorted(m),
        m.len() > 0,
        chars_lt(m[0].0, k),
        insert_keeps_order(m.drop_first(), k, v),
    ensures
        insert_keeps_order(m, k, v),
{
    let r = object_insert(m, k, v);
    let t = m.drop_first();
    let rt = object_insert(t, k, v);
    assert(r =~= seq![m[0]] + rt);
    assert forall|j: int| 0 <= j < rt.len() implies chars_lt(m[0].0, #[trigger] rt[j].0) by {
        if rt[j].0 != k {
            assert(has_key(rt, rt[j].0));
            let i = choose|i: int| 0 <= i < t.len() && #[trigger] t[i].0 == rt[j].0;
            assert(t[i] == m[i + 1]);
        }
    }
    assert forall|i: int, j: int| 0 <= i < j < r.len() implies chars_lt(#[trigger] r[i].0, #[trigger] r[j].0) by {
        if i == 0 {
            assert(r[j] == rt[j - 1]);
        } else {
            assert(r[i] == rt[i - 1] && r[j] == rt[j - 1]);
        }
    }
    assert(has_key(r, k)) by {
        let j = choose|j: int| 0 <= j < rt.len() && #[trigger] rt[j].0 == k;
        assert(r[j + 1] == rt[j]);
    }
    assert forall|x: Seq<char>| x != k implies (has_key(r, x) <==> has_key(m, x)) by {
        if has_key(r, x) {
            let j = choose|j: int| 0 <= j < r.len() && #[trigger] r[j].0 == x;
            if j == 0 {
                assert(m[0].0 == x);
            } else {
                assert(r[j] == rt[j - 1]);
                assert(has_key(rt, x));
                let i = choose|i: int| 0 <= i < t.len() && #[trigger] t[i].0 == x;
                assert(m[i + 1] == t[i]);
            }
        }
        if has_key(m, x) {
            let i = choose|i: int| 0 <= i < m.len() && #[trigger] m[i].0 == x;
            if i == 0 {
                assert(r[0].0 == x);
            } else {
                assert(t[i - 1] == m[i]);
                assert(has_key(t, x));
                let j = choose|j: int| 0 <= j < rt.len() && #[trigger] rt[j].0 == x;
                assert(r[j + 1] == rt[j]);
            }
        }
    }
    if has_key(m, k) {
        let i = choose|i: int| 0 <= i < m.len() && #[trigger] m[i].0 == k;
        lemma_chars_lt_irreflexive(k);
        assert(i != 0);
        assert(t[i - 1] == m[i]);
    } else {
        if has_key(t, k) {
            let i = choose|i: int| 0 <= i < t.len() && #[trigger] t[i].0 == k;
            assert(m[i + 1] == t[i]);
        }
    }
}

/// Inserting into an object ordered by key keeps it ordered, adds exactly
/// the key `k`, and grows it by one member unless `k` was present.
pub proof fn lemma_object_insert_sorted(m: Seq<(Seq<char>, JsonValue)>, k: Seq<char>, v: JsonValue)
    requires
        keys_strictly_sorted(m),
    ensures
        insert_keeps_order(m, k, v),
    decreases m.len(),
{
    if m.len() == 0 {
        assert(object_insert(m, k, v)[0].0 == k);
    } else if chars_lt(m[0].0, k) {
        let t = m.drop_first();
        assert forall|i: int, j: int| 0 <= i < j < t.len() implies chars_lt(#[trigger] t[i].0, #[trigger] t[j].0) by {
            assert(t[i] == m[i + 1] && t[j] == m[j + 1]);
        }
        lemma_object_insert_sorted(t, k, v);
        lemma_insert_after_first(m, k, v);
    } else if m[0].0 == k {
        lemma_insert_at_first(m, k, v);
    } else {
        lemma_insert_before_first(m, k, v);
    }
}

/// A copy of a JSON value.
pub fn clone_json(j: &Json) -> (r: Json)
    ensures
        json_view(r) == json_view(*j),
    decreases j,
{
    match j {
        Json::Null => Json::Null,
        Json::Bool(b) => Json::Bool(*b),
        Json::Number(n) => Json::Number(*n),
        Json::String(s) => Json::String(s.clone()),
        Json::Array(items) => {
            let mut out: Vec<Json> = Vec::new();
            let mut i: usize = 0;
            while i < items.len()
                invariant
                    i <= items@.len(),
                    *j == Json::Array(*items),
                    json_seq_view(out@) == json_seq_view(items@.take(i as int)),
                decreases items@.len() - i,
            {
                proof {
                    assert(decreases_to!(*j => (*j)->Array_0));
                    assert(decreases_to!(*items => items[i as int]));
                }
                let item = clone_json(&items[i]);
                let ghost prev = out@;
                out.push(item);
                proof {
                    lemma_json_seq_view_push(prev, item);
                    assert(items@.take(i + 1) =~= items@.take(i as int).push(items@[i as int]));
                    lemma_json_seq_view_push(items@.take(i as int), items@[i as int]);
                }
                i = i + 1;
            }
            assert(items@.take(i as int) =~= items@);
            Json::Array(out)
        },
        Json::Object(members) => {
            let mut out: Vec<JsonMember> = Vec::new();
            let mut i: usize = 0;
            while i < members.len()
                invariant
                    i <= members@.len(),
                    *j == Json::Object(*members),
                    members_view(out@) == members_view(members@.take(i as int)),
                decreases members@.len() - i,
            {
                proof {
                    assert(decreases_to!(*j => (*j)->Object_0));
                    assert(decreases_to!(*members => members[i as int]));
                    assert(decreases_to!(members[i as int] => members[i as int].value));
                }
                let value = clone_json(&members[i].value);
                let m = JsonMember { key: members[i].key.clone(), value };
                let ghost prev = out@;
                out.push(m);
                proof {
                    lemma_members_view_push(prev, m);
                    assert(members@.take(i + 1) =~= members@.take(i as int).push(members@[i as int]));
                    lemma_members_view_push(members@.take(i as int), members@[i as int]);
                }
                i = i + 1;
            }
            assert(members@.take(i as int) =~= members@);
            Json::Object(out)
        },
    }
}

/// The position of the first member with key `k`, or -1 when there is none.
pub open spec fn member_position(m: Seq<(Seq<char>, JsonValue)>, k: Seq<char>) -> int
    decreases m.len(),
{
    if m.len() == 0 {
        -1
    } else if m[0].0 == k {
        0
    } else {
        let r = member_position(m.drop_first(), k);
        if r < 0 {
            -1
        } else {
            r + 1
        }
    }
}

proof fn lemma_position_found(m: Seq<(Seq<char>, JsonValue)>, k: Seq<char>, i: int)
    requires
        0 <= i < m.len(),
        m[i].0 == k,
        forall|j: int| 0 <= j < i ==> #[trigger] m[j].0 != k,
    ensures
        member_position(m, k) == i,
    decreases i,
{
    if i > 0 {
        let rest = m.drop_first();
        assert forall|j: int| 0 <= j < i - 1 implies #[trigger] rest[j].0 != k by {
            assert(rest[j] == m[j + 1]);
        }
        lemma_position_found(rest, k, i - 1);
    }
}

proof fn lemma_position_absent(m: Seq<(Seq<char>, JsonValue)>, k: Seq<char>)
    requires
        forall|j: int| 0 <= j < m.len() ==> #[trigger] m[j].0 != k,
    ensures
        member_position(m, k) == -1,
    decreases m.len(),
{
    if m.len() > 0 {
        let rest = m.drop_first();
        assert forall|j: int| 0 <= j < rest.len() implies #[trigger] rest[j].0 != k by {
            assert(rest[j] == m[j + 1]);
        }
        lemma_position_absent(rest, k);
    }
}

/// The position of the first member with key `key`.
pub fn find_member(members: &Vec<JsonMember>, key: &str) -> (p: Option<usize>)
    ensures
        members_view(members@).len() == members@.len(),
        match p {
            Some(i) => i < members@.len() && member_position(members_view(members@), key@) == i
                && members@[i as int].key@ == key@,
            None => member_position(members_view(members@), key@) == -1,
        },
{
    proof {
        lemma_members_view_index(members@);
    }
    let ghost mv = members_view(members@);
    let mut i: usize = 0;
    while i < members.len()
        invariant
            i <= members@.len(),
            mv == members_view(members@),
            mv.len() == members@.len(),
            forall|j: int| 0 <= j < mv.len() ==> #[trigger] mv[j] == (members@[j].key@, json_view(members@[j].value)),
            forall|j: int| 0 <= j < i ==> #[trigger] mv[j].0 != key@,
        decreases members@.len() - i,
    {
        if str_equals(members[i].key.as_str(), key) {
            proof {
                lemma_position_found(mv, key@, i as int);
            }
            return Some(i);
        }
        i = i + 1;
    }
    proof {
        lemma_position_absent(mv, key@);
    }
    None
}

/// The text of the member with key `key`, when there is one and it is a string.
pub open spec fn str_member(v: JsonValue, key: Seq<char>) -> Option<Seq<char>> {
    match v {
        JsonValue::Object(m) => {
            let p = member_position(m, key);
            if p >= 0 {
                match m[p].1 {
                    JsonValue::Str(s) => Some(s),
                    _ => None,
                }
            } else {
                None
            }
        },
        _ => None,
    }
}

/// The text of the member with key `key`, when there is one and it is a string.
pub fn get_str_member<'a>(j: &'a Json, key: &str) -> (r: Option<&'a String>)
    ensures
        match r {
            Some(s) => str_member(json_view(*j), key@) == Some(s@),
            None => str_member(json_view(*j), key@) is None,
        },
{
    match j {
        Json::Object(members) => {
            let pos = find_member(members, key);
            proof {
                lemma_members_view_index(members@);
            }
            match pos {
                Some(p) => match &members[p].value {
                    Json::String(s) => Some(s),
                    _ => None,
                },
                None => None,
            }
        },
        _ => None,
    }
}

} // verus!
