//! Resource profiles of replayed executions.

use vstd::prelude::*;
use vstd::utf8::encode_utf8;
use crate::error::GratResult;
use crate::replay::differ::{diff_view, diffs_view, DiffView};
use crate::replay::sandbox::SandboxResult;
use crate::types::trace::{DiffChangeType, ResourceProfile, StateDiff};

verus! {

/// The number of bytes a hex string stands for: half its length.
pub open spec fn hex_byte_count(s: Option<Seq<char>>) -> nat {
    match s {
        Some(t) => encode_utf8(t).len() / 2,
        None => 0,
    }
}

/// Bytes written: the new values of created and updated entries.
pub open spec fn write_bytes(d: Seq<DiffView>) -> nat
    decreases d.len(),
{
    if d.len() == 0 {
        0
    } else {
        let e = d.last();
        write_bytes(d.drop_last()) + match e.3 {
            DiffChangeType::Created | DiffChangeType::Updated => hex_byte_count(e.2),
            _ => 0,
        }
    }
}

/// Bytes read: the old values of updated, deleted and unchanged entries.
pub open spec fn read_bytes(d: Seq<DiffView>) -> nat
    decreases d.len(),
{
    if d.len() == 0 {
        0
    } else {
        let e = d.last();
        read_bytes(d.drop_last()) + match e.3 {
            DiffChangeType::Created => 0,
            _ => hex_byte_count(e.1),
        }
    }
}

/// The byte counts of a prefix do not exceed those of the whole.
proof fn lemma_prefix_bytes(d: Seq<DiffView>, i: int)
    requires
        0 <= i <= d.len(),
    ensures
        read_bytes(d.take(i)) <= read_bytes(d),
        write_bytes(d.take(i)) <= write_bytes(d),
    decreases d.len() - i,
{
    if i < d.len() {
        assert(d.take(i + 1).drop_last() =~= d.take(i));
        lemma_prefix_bytes(d, i + 1);
    } else {
        assert(d.take(i) =~= d);
    }
}

/// The number of bytes a hex string stands for.
fn hex_bytes_of(s: &Option<String>) -> (n: u64)
    requires
        hex_byte_count(crate::replay::differ::opt_str_view(*s)) <= u64::MAX,
    ensures
        n == hex_byte_count(crate::replay::differ::opt_str_view(*s)),
{
    match s {
        Some(t) => {
            let len = t.as_str().as_bytes().len();
            (len / 2) as u64
        },
        None => 0,
    }
}

/// Profiles the resources an execution used: its CPU and memory, and the
/// bytes it read and wrote as the state difference shows them (half the
/// length of each hex value). No limits are known, so every limit is 0 and
/// no usage warning arises.
pub fn generate_profile(result: &SandboxResult, state_diff: &StateDiff) -> (r: GratResult<ResourceProfile>)
    requires
        read_bytes(diffs_view(state_diff.entries@)) <= u64::MAX,
        write_bytes(diffs_view(state_diff.entries@)) <= u64::MAX,
    ensures
        r matches Ok(p) && p.total_cpu == result.total_cpu && p.total_memory == result.total_memory
            && p.total_read_bytes == read_bytes(diffs_view(state_diff.entries@))
            && p.total_write_bytes == write_bytes(diffs_view(state_diff.entries@)) && p.cpu_limit
            == 0 && p.memory_limit == 0 && p.read_limit == 0 && p.write_limit == 0
            && p.hotspots@.len() == 0 && p.warnings@.len() == 0,
{
    let ghost d = diffs_view(state_diff.entries@);
    let mut total_write_bytes: u64 = 0;
    let mut total_read_bytes: u64 = 0;
    let mut i: usize = 0;
    while i < state_diff.entries.len()
        invariant
            i <= state_diff.entries@.len(),
            d == diffs_view(state_diff.entries@),
            read_bytes(d) <= u64::MAX,
            write_bytes(d) <= u64::MAX,
            total_read_bytes == read_bytes(d.take(i as int)),
            total_write_bytes == write_bytes(d.take(i as int)),
        decreases state_diff.entries@.len() - i,
    {
        let entry = &state_diff.entries[i];
        proof {
            assert(d.take(i + 1).drop_last() =~= d.take(i as int));
            assert(d.take(i + 1).last() == diff_view(*entry));
            lemma_prefix_bytes(d, i + 1);
        }
        match entry.change_type {
            DiffChangeType::Created => {
                total_write_bytes = total_write_bytes + hex_bytes_of(&entry.after);
            },
            DiffChangeType::Updated => {
                total_write_bytes = total_write_bytes + hex_bytes_of(&entry.after);
                total_read_bytes = total_read_bytes + hex_bytes_of(&entry.before);
            },
            DiffChangeType::Deleted | DiffChangeType::Unchanged => {
                total_read_bytes = total_read_bytes + hex_bytes_of(&entry.before);
            },
        }
        i = i + 1;
    }
    assert(d.take(i as int) =~= d);
    Ok(ResourceProfile {
        total_cpu: result.total_cpu,
        cpu_limit: 0,
        total_memory: result.total_memory,
        memory_limit: 0,
        total_read_bytes,
        total_write_bytes,
        read_limit: 0,
        write_limit: 0,
        hotspots: Vec::new(),
        warnings: Vec::new(),
    })
}

} // verus!
