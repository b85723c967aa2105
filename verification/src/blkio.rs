//! Block-I/O byte totals: summing per-operation counters into read and write
//! totals. Operation kinds other than `read` and `write` are ignored (the
//! caller may log them; they are never fatal).

use vstd::prelude::*;
use crate::delta::clamp_to_u64;
use crate::sample::{BlkioEntry, BlkioEntryModel};
use crate::strutil::str_eq;

verus! {

broadcast use vstd::string::group_string_axioms;

/// The mathematical total of the byte counters whose operation is `read`.
pub open spec fn read_total(entries: Seq<BlkioEntryModel>) -> int
    decreases entries.len(),
{
    if entries.len() == 0 {
        0
    } else {
        read_total(entries.drop_last()) + if entries.last().op == "read"@ {
            entries.last().value as int
        } else {
            0int
        }
    }
}

/// The mathematical total of the byte counters whose operation is `write`.
pub open spec fn write_total(entries: Seq<BlkioEntryModel>) -> int
    decreases entries.len(),
{
    if entries.len() == 0 {
        0
    } else {
        write_total(entries.drop_last()) + if entries.last().op == "write"@ {
            entries.last().value as int
        } else {
            0int
        }
    }
}

/// Both totals are sums of unsigned counters, so neither is ever negative.
pub proof fn lemma_totals_nonneg(entries: Seq<BlkioEntryModel>)
    ensures
        read_total(entries) >= 0,
        write_total(entries) >= 0,
    decreases entries.len(),
{
    if entries.len() > 0 {
        lemma_totals_nonneg(entries.drop_last());
    }
}

/// Copies one block-I/O reading, for storing it as the next baseline.
pub fn clone_entries(entries: &Vec<BlkioEntry>) -> (r: Vec<BlkioEntry>)
    ensures
        r@ == entries@,
        r.deep_view() == entries.deep_view(),
{
    let mut out: Vec<BlkioEntry> = Vec::new();
    let mut i: usize = 0;
    while i < entries.len()
        invariant
            i <= entries.len(),
            out@ =~= entries@.take(i as int),
        decreases entries.len() - i,
    {
        out.push(entries[i].clone());
        i = i + 1;
    }
    proof {
        assert(out@ =~= entries@);
        assert(out.deep_view() =~= entries.deep_view());
    }
    out
}

/// Sums the `read` and `write` byte counters of one block-I/O reading,
/// saturating at `u64::MAX` instead of wrapping. Entries with any other
/// operation kind contribute to neither total.
pub fn get_rw_totals(entries: &Vec<BlkioEntry>) -> (totals: (u64, u64))
    ensures
        totals.0 == clamp_to_u64(read_total(entries.deep_view())),
        totals.1 == clamp_to_u64(write_total(entries.deep_view())),
{
    let ghost model = entries.deep_view();
    let mut read: u64 = 0;
    let mut write: u64 = 0;
    let n = entries.len();
    let mut i: usize = 0;
    while i < n
        invariant
            n == entries.len(),
            i <= n,
            model == entries.deep_view(),
            read == clamp_to_u64(read_total(model.take(i as int))),
            write == clamp_to_u64(write_total(model.take(i as int))),
        decreases n - i,
    {
        let entry = &entries[i];
        proof {
            assert(model.take(i + 1).drop_last() =~= model.take(i as int));
            assert(model.take(i + 1).last() == entry.deep_view());
            lemma_totals_nonneg(model.take(i as int));
            reveal_strlit("read");
            reveal_strlit("write");
            assert("read"@.len() == 4);
            assert("write"@.len() == 5);
        }
        if str_eq(entry.op.as_str(), "read") {
            read = read.saturating_add(entry.value);
        } else if str_eq(entry.op.as_str(), "write") {
            write = write.saturating_add(entry.value);
        }
        i = i + 1;
    }
    proof {
        assert(model.take(n as int) =~= model);
    }
    (read, write)
}

} // verus!
