//! The difference between the ledger state before an execution and after it.

use vstd::prelude::*;
use crate::decode::cross_contract::bytes_to_hex;
use crate::error::GratResult;
use crate::replay::sandbox::SandboxResult;
use crate::replay::state::{entries_view, keys_distinct, LedgerState, StateEntry};
use crate::text::{hex_bytes, str_equals};
use crate::types::trace::{DiffChangeType, LedgerEntryDiff, StateDiff};

verus! {

/// The view of an entry's change: key, hex before, hex after, kind of change.
pub type DiffView = (Seq<char>, Option<Seq<char>>, Option<Seq<char>>, DiffChangeType);

/// The view of an optional string.
pub open spec fn opt_str_view(s: Option<String>) -> Option<Seq<char>> {
    match s {
        Some(t) => Some(t@),
        None => None,
    }
}

/// The view of an entry's change.
pub open spec fn diff_view(d: LedgerEntryDiff) -> DiffView {
    (d.key@, opt_str_view(d.before), opt_str_view(d.after), d.change_type)
}

/// The views of a sequence of changes.
pub open spec fn diffs_view(s: Seq<LedgerEntryDiff>) -> Seq<DiffView> {
    s.map_values(|d: LedgerEntryDiff| diff_view(d))
}

/// The value stored under key `k`, if any (the first entry with that key).
pub open spec fn lookup_value(m: Seq<(Seq<char>, Seq<u8>)>, k: Seq<char>) -> Option<Seq<u8>>
    decreases m.len(),
{
    if m.len() == 0 {
        None
    } else if m[0].0 == k {
        Some(m[0].1)
    } else {
        lookup_value(m.drop_first(), k)
    }
}

/// The change of an entry present before execution: unchanged or updated when
/// its key is still present after, deleted when it is not.
pub open spec fn entry_diff(k: Seq<char>, before: Seq<u8>, post: Seq<(Seq<char>, Seq<u8>)>) -> DiffView {
    match lookup_value(post, k) {
        Some(after) => (
            k,
            Some(hex_bytes(before)),
            Some(hex_bytes(after)),
            if before == after {
                DiffChangeType::Unchanged
            } else {
                DiffChangeType::Updated
            },
        ),
        None => (k, Some(hex_bytes(before)), None, DiffChangeType::Deleted),
    }
}

/// The changes of the entries present before execution, in their order.
pub open spec fn pre_diffs(pre: Seq<(Seq<char>, Seq<u8>)>, post: Seq<(Seq<char>, Seq<u8>)>) -> Seq<DiffView> {
    pre.map_values(|e: (Seq<char>, Seq<u8>)| entry_diff(e.0, e.1, post))
}

/// The entries created by execution: those after it whose key was absent
/// before, in their order.
pub open spec fn created_diffs(pre: Seq<(Seq<char>, Seq<u8>)>, post: Seq<(Seq<char>, Seq<u8>)>) -> Seq<DiffView>
    decreases post.len(),
{
    if post.len() == 0 {
        Seq::empty()
    } else {
        let rest = created_diffs(pre, post.drop_last());
        let e = post.last();
        if lookup_value(pre, e.0) is None {
            rest.push((e.0, None, Some(hex_bytes(e.1)), DiffChangeType::Created))
        } else {
            rest
        }
    }
}

/// The difference between two states: the changes of the entries present
/// before, then the entries created.
pub open spec fn state_diff(pre: Seq<(Seq<char>, Seq<u8>)>, post: Seq<(Seq<char>, Seq<u8>)>) -> Seq<DiffView> {
    pre_diffs(pre, post) + created_diffs(pre, post)
}

proof fn lemma_lookup_found(m: Seq<(Seq<char>, Seq<u8>)>, k: Seq<char>, i: int)
    requires
        0 <= i < m.len(),
        m[i].0 == k,
        forall|j: int| 0 <= j < i ==> #[trigger] m[j].0 != k,
    ensures
        lookup_value(m, k) == Some(m[i].1),
    decreases i,
{
    if i > 0 {
        let rest = m.drop_first();
        assert forall|j: int| 0 <= j < i - 1 implies #[trigger] rest[j].0 != k by {
            assert(rest[j] == m[j + 1]);
        }
        lemma_lookup_found(rest, k, i - 1);
    }
}

proof fn lemma_lookup_absent(m: Seq<(Seq<char>, Seq<u8>)>, k: Seq<char>)
    requires
        forall|j: int| 0 <= j < m.len() ==> #[trigger] m[j].0 != k,
    ensures
        lookup_value(m, k) is None,
    decreases m.len(),
{
    if m.len() > 0 {
        let rest = m.drop_first();
        assert forall|j: int| 0 <= j < rest.len() implies #[trigger] rest[j].0 != k by {
            assert(rest[j] == m[j + 1]);
        }
        lemma_lookup_absent(rest, k);
    }
}

/// In a state whose keys are distinct, the value under each entry's key is
/// that entry's value.
pub proof fn lemma_lookup_distinct(m: Seq<(Seq<char>, Seq<u8>)>, i: int)
    requires
        0 <= i < m.len(),
        keys_distinct(m),
    ensures
        lookup_value(m, m[i].0) == Some(m[i].1),
{
    assert forall|j: int| 0 <= j < i implies #[trigger] m[j].0 != m[i].0 by {
        assert(m[j].0 != m[i].0);
    }
    lemma_lookup_found(m, m[i].0, i);
}

/// The position of the first entry with key `key`.
fn find_entry(entries: &Vec<StateEntry>, key: &str) -> (r: Option<usize>)
    ensures
        match r {
            Some(i) => i < entries@.len() && entries@[i as int].key@ == key@ && lookup_value(
                entries_view(entries@),
                key@,
            ) == Some(entries@[i as int].value@),
            None => lookup_value(entries_view(entries@), key@) is None,
        },
{
    let ghost ev = entries_view(entries@);
    let mut i: usize = 0;
    while i < entries.len()
        invariant
            i <= entries@.len(),
            ev == entries_view(entries@),
            forall|j: int| 0 <= j < i ==> #[trigger] ev[j].0 != key@,
        decreases entries@.len() - i,
    {
        if str_equals(entries[i].key.as_str(), key) {
            proof {
                lemma_lookup_found(ev, key@, i as int);
            }
            return Some(i);
        }
        i = i + 1;
    }
    proof {
        lemma_lookup_absent(ev, key@);
    }
    None
}

/// Whether two byte strings are equal.
fn bytes_equal(a: &Vec<u8>, b: &Vec<u8>) -> (r: bool)
    ensures
        r == (a@ == b@),
{
    if a.len() != b.len() {
        return false;
    }
    let mut i: usize = 0;
    while i < a.len()
        invariant
            i <= a@.len(),
            a@.len() == b@.len(),
            forall|j: int| 0 <= j < i ==> a@[j] == b@[j],
        decreases a@.len() - i,
    {
        if a[i] != b[i] {
            return false;
        }
        i = i + 1;
    }
    assert(a@ =~= b@);
    true
}

/// Compares the ledger state before execution with the state the sandbox
/// left: each entry present before is unchanged, updated or deleted, in the
/// order of the state before; each entry whose key was absent before is
/// created, in the order of the state after. Values are shown as lowercase hex.
/// Each state holds a key at most once, as a map does, so the diff holds
/// exactly one change per key of either state.
pub fn compute_diff(pre_state: &LedgerState, result: &SandboxResult) -> (r: GratResult<StateDiff>)
    requires
        keys_distinct(entries_view(pre_state.entries@)),
        keys_distinct(entries_view(result.final_state@)),
    ensures
        r matches Ok(d) && diffs_view(d.entries@) == state_diff(
            entries_view(pre_state.entries@),
            entries_view(result.final_state@),
        ) && (forall|a: int, b: int| 0 <= a < b < d.entries@.len() ==> (#[trigger] diffs_view(d.entries@)[a]).0
            != (#[trigger] diffs_view(d.entries@)[b]).0) && (forall|k: Seq<char>| (lookup_value(
            entries_view(pre_state.entries@),
            k,
        ) is Some || lookup_value(entries_view(result.final_state@), k) is Some) ==> #[trigger] has_change_for(
            diffs_view(d.entries@),
            k,
        )),
{
    let ghost pre = entries_view(pre_state.entries@);
    let ghost post = entries_view(result.final_state@);
    let mut entries: Vec<LedgerEntryDiff> = Vec::new();
    let mut i: usize = 0;
    while i < pre_state.entries.len()
        invariant
            i <= pre_state.entries@.len(),
            pre == entries_view(pre_state.entries@),
            post == entries_view(result.final_state@),
            diffs_view(entries@) == pre_diffs(pre, post).take(i as int),
        decreases pre_state.entries@.len() - i,
    {
        let entry = &pre_state.entries[i];
        let before = bytes_to_hex(entry.value.as_slice());
        let d = match find_entry(&result.final_state, entry.key.as_str()) {
            Some(j) => {
                let after_value = &result.final_state[j].value;
                let after = bytes_to_hex(after_value.as_slice());
                let change_type = if bytes_equal(&entry.value, after_value) {
                    DiffChangeType::Unchanged
                } else {
                    DiffChangeType::Updated
                };
                LedgerEntryDiff { key: entry.key.clone(), before: Some(before), after: Some(after), change_type }
            },
            None => LedgerEntryDiff {
                key: entry.key.clone(),
                before: Some(before),
                after: None,
                change_type: DiffChangeType::Deleted,
            },
        };
        let ghost prev = entries@;
        entries.push(d);
        proof {
            assert(diffs_view(entries@) =~= diffs_view(prev).push(diff_view(d)));
            assert(pre_diffs(pre, post).take(i + 1) =~= pre_diffs(pre, post).take(i as int).push(
                pre_diffs(pre, post)[i as int],
            ));
        }
        i = i + 1;
    }
    assert(pre_diffs(pre, post).take(i as int) =~= pre_diffs(pre, post));
    let mut k: usize = 0;
    while k < result.final_state.len()
        invariant
            k <= result.final_state@.len(),
            pre == entries_view(pre_state.entries@),
            post == entries_view(result.final_state@),
            diffs_view(entries@) == pre_diffs(pre, post) + created_diffs(pre, post.take(k as int)),
        decreases result.final_state@.len() - k,
    {
        let entry = &result.final_state[k];
        proof {
            assert(post.take(k + 1).drop_last() =~= post.take(k as int));
            assert(post.take(k + 1).last() == post[k as int]);
        }
        if find_entry(&pre_state.entries, entry.key.as_str()).is_none() {
            let after = bytes_to_hex(entry.value.as_slice());
            let d = LedgerEntryDiff {
                key: entry.key.clone(),
                before: None,
                after: Some(after),
                change_type: DiffChangeType::Created,
            };
            let ghost prev = entries@;
            entries.push(d);
            proof {
                assert(diffs_view(entries@) =~= diffs_view(prev).push(diff_view(d)));
            }
        }
        k = k + 1;
    }
    assert(post.take(k as int) =~= post);
    proof {
        law_diff_has_one_change_per_key(pre, post);
        law_diff_covers_both_states(pre, post);
        assert(diffs_view(entries@).len() == entries@.len());
    }
    Ok(StateDiff { entries })
}

/// Comparing a state whose keys are distinct with itself marks every entry
/// unchanged and creates none.
pub proof fn law_self_diff_is_unchanged(s: Seq<(Seq<char>, Seq<u8>)>)
    requires
        keys_distinct(s),
    ensures
        state_diff(s, s).len() == s.len(),
        forall|i: int| 0 <= i < s.len() ==> (#[trigger] state_diff(s, s)[i]).3 == DiffChangeType::Unchanged,
{
    lemma_no_created(s, s.len() as int);
    assert(created_diffs(s, s.take(s.len() as int)) == created_diffs(s, s)) by {
        assert(s.take(s.len() as int) =~= s);
    }
    assert forall|i: int| 0 <= i < s.len() implies (#[trigger] state_diff(s, s)[i]).3 == DiffChangeType::Unchanged by {
        lemma_lookup_distinct(s, i);
        assert(state_diff(s, s)[i] == pre_diffs(s, s)[i]);
    }
}

proof fn lemma_no_created(s: Seq<(Seq<char>, Seq<u8>)>, n: int)
    requires
        keys_distinct(s),
        0 <= n <= s.len(),
    ensures
        created_diffs(s, s.take(n)).len() == 0,
    decreases n,
{
    if n > 0 {
        lemma_no_created(s, n - 1);
        assert(s.take(n).drop_last() =~= s.take(n - 1));
        lemma_lookup_distinct(s, n - 1);
    }
}

/// Whether a diff has an entry for key `k`.
pub open spec fn has_change_for(d: Seq<DiffView>, k: Seq<char>) -> bool {
    exists|i: int| 0 <= i < d.len() && (#[trigger] d[i]).0 == k
}

/// A key that a state stores under some entry.
proof fn lemma_lookup_some_has_entry(m: Seq<(Seq<char>, Seq<u8>)>, k: Seq<char>)
    requires
        lookup_value(m, k) is Some,
    ensures
        exists|i: int| 0 <= i < m.len() && (#[trigger] m[i]).0 == k,
    decreases m.len(),
{
    if m[0].0 != k {
        lemma_lookup_some_has_entry(m.drop_first(), k);
        let i = choose|i: int| 0 <= i < m.drop_first().len() && (#[trigger] m.drop_first()[i]).0 == k;
        assert(m[i + 1] == m.drop_first()[i]);
    }
}

/// An entry present only after execution is among the creations.
proof fn lemma_created_has_entry(pre: Seq<(Seq<char>, Seq<u8>)>, post: Seq<(Seq<char>, Seq<u8>)>, j: int)
    requires
        0 <= j < post.len(),
        lookup_value(pre, post[j].0) is None,
    ensures
        exists|i: int| 0 <= i < created_diffs(pre, post).len()
            && #[trigger] created_diffs(pre, post)[i] == (post[j].0, None::<Seq<char>>, Some(hex_bytes(post[j].1)), DiffChangeType::Created),
    decreases post.len(),
{
    let rest = created_diffs(pre, post.drop_last());
    let c = created_diffs(pre, post);
    let target = (post[j].0, None::<Seq<char>>, Some(hex_bytes(post[j].1)), DiffChangeType::Created);
    if j == post.len() - 1 {
        assert(c[c.len() - 1] == target);
    } else {
        assert(post.drop_last()[j] == post[j]);
        lemma_created_has_entry(pre, post.drop_last(), j);
        let i = choose|i: int| 0 <= i < rest.len() && #[trigger] rest[i] == target;
        assert(c[i] == rest[i]);
    }
}

/// The diff reports every key of both states: each entry present before
/// keeps its place and its change (unchanged, updated or deleted), and each
/// entry present only after is reported as created, with its value.
pub proof fn law_diff_covers_both_states(pre: Seq<(Seq<char>, Seq<u8>)>, post: Seq<(Seq<char>, Seq<u8>)>)
    ensures
        forall|i: int| 0 <= i < pre.len() ==> #[trigger] state_diff(pre, post)[i] == entry_diff(pre[i].0, pre[i].1, post),
        forall|j: int| 0 <= j < post.len() && lookup_value(pre, #[trigger] post[j].0) is None ==> exists|i: int|
            0 <= i < state_diff(pre, post).len() && #[trigger] state_diff(pre, post)[i] == (
                post[j].0,
                None::<Seq<char>>,
                Some(hex_bytes(post[j].1)),
                DiffChangeType::Created,
            ),
        forall|k: Seq<char>| (lookup_value(pre, k) is Some || lookup_value(post, k) is Some) ==> #[trigger] has_change_for(
            state_diff(pre, post),
            k,
        ),
{
    let d = state_diff(pre, post);
    let p = pre_diffs(pre, post);
    let c = created_diffs(pre, post);
    assert forall|j: int| 0 <= j < post.len() && lookup_value(pre, #[trigger] post[j].0) is None implies exists|i: int|
        0 <= i < d.len() && #[trigger] d[i] == (post[j].0, None::<Seq<char>>, Some(hex_bytes(post[j].1)), DiffChangeType::Created) by {
        lemma_created_has_entry(pre, post, j);
        let i = choose|i: int| 0 <= i < c.len()
            && #[trigger] c[i] == (post[j].0, None::<Seq<char>>, Some(hex_bytes(post[j].1)), DiffChangeType::Created);
        assert(d[p.len() + i] == c[i]);
    }
    assert forall|k: Seq<char>| (lookup_value(pre, k) is Some || lookup_value(post, k) is Some) implies #[trigger] has_change_for(d, k) by {
        if lookup_value(pre, k) is Some {
            lemma_lookup_some_has_entry(pre, k);
            let i = choose|i: int| 0 <= i < pre.len() && (#[trigger] pre[i]).0 == k;
            assert(d[i] == p[i]);
            assert(d[i].0 == k);
        } else {
            lemma_lookup_some_has_entry(post, k);
            let j = choose|j: int| 0 <= j < post.len() && (#[trigger] post[j]).0 == k;
            lemma_created_has_entry(pre, post, j);
            let i = choose|i: int| 0 <= i < c.len()
                && #[trigger] c[i] == (post[j].0, None::<Seq<char>>, Some(hex_bytes(post[j].1)), DiffChangeType::Created);
            assert(d[p.len() + i] == c[i]);
            assert(d[p.len() + i].0 == k);
        }
    }
}

/// The creations of a diff have distinct keys, each absent before and
/// present after execution.
proof fn lemma_created_keys(pre: Seq<(Seq<char>, Seq<u8>)>, post: Seq<(Seq<char>, Seq<u8>)>)
    requires
        keys_distinct(post),
    ensures
        forall|a: int| 0 <= a < created_diffs(pre, post).len() ==> lookup_value(pre, (#[trigger] created_diffs(pre, post)[a]).0) is None,
        forall|a: int| 0 <= a < created_diffs(pre, post).len() ==> exists|j: int|
            0 <= j < post.len() && #[trigger] post[j].0 == (#[trigger] created_diffs(pre, post)[a]).0,
        forall|a: int, b: int| 0 <= a < b < created_diffs(pre, post).len() ==> (#[trigger] created_diffs(pre, post)[a]).0
            != (#[trigger] created_diffs(pre, post)[b]).0,
    decreases post.len(),
{
    if post.len() > 0 {
        let d = post.drop_last();
        assert forall|i: int, j: int| 0 <= i < j < d.len() implies #[trigger] d[i].0 != #[trigger] d[j].0 by {
            assert(d[i] == post[i] && d[j] == post[j]);
        }
        lemma_created_keys(pre, d);
        let rest = created_diffs(pre, d);
        let c = created_diffs(pre, post);
        assert forall|a: int| 0 <= a < c.len() implies exists|j: int|
            0 <= j < post.len() && #[trigger] post[j].0 == (#[trigger] c[a]).0 by {
            if a < rest.len() {
                assert(c[a] == rest[a]);
                let j = choose|j: int| 0 <= j < d.len() && #[trigger] d[j].0 == rest[a].0;
                assert(post[j] == d[j]);
            } else {
                assert(post[post.len() - 1].0 == c[a].0);
            }
        }
        assert forall|a: int, b: int| 0 <= a < b < c.len() implies (#[trigger] c[a]).0 != (#[trigger] c[b]).0 by {
            assert(c[a] == rest[a]);
            if b < rest.len() {
                assert(c[b] == rest[b]);
            } else {
                let j = choose|j: int| 0 <= j < d.len() && #[trigger] d[j].0 == rest[a].0;
                assert(d[j] == post[j]);
                assert(post[j].0 != post[post.len() - 1].0);
            }
        }
        assert forall|a: int| 0 <= a < c.len() implies lookup_value(pre, (#[trigger] c[a]).0) is None by {
            if a < rest.len() {
                assert(c[a] == rest[a]);
            }
        }
    }
}

/// When neither state holds a key twice, the diff holds exactly one change
/// per key: no two of its changes share a key (and, by
/// `law_diff_covers_both_states`, every key of either state has one).
pub proof fn law_diff_has_one_change_per_key(pre: Seq<(Seq<char>, Seq<u8>)>, post: Seq<(Seq<char>, Seq<u8>)>)
    requires
        keys_distinct(pre),
        keys_distinct(post),
    ensures
        forall|a: int, b: int| 0 <= a < b < state_diff(pre, post).len() ==> (#[trigger] state_diff(pre, post)[a]).0
            != (#[trigger] state_diff(pre, post)[b]).0,
{
    lemma_created_keys(pre, post);
    let d = state_diff(pre, post);
    let p = pre_diffs(pre, post);
    let c = created_diffs(pre, post);
    assert forall|a: int, b: int| 0 <= a < b < d.len() implies (#[trigger] d[a]).0 != (#[trigger] d[b]).0 by {
        if b < p.len() {
            assert(d[a].0 == pre[a].0 && d[b].0 == pre[b].0);
        } else if a < p.len() {
            assert(d[a].0 == pre[a].0);
            assert(d[b] == c[b - p.len()]);
            lemma_lookup_distinct(pre, a);
        } else {
            assert(d[a] == c[a - p.len()] && d[b] == c[b - p.len()]);
        }
    }
}

} // verus!
