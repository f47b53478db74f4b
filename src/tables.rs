//! Contents of the range lookup tables.
use vstd::arithmetic::power2::pow2;
use vstd::bits::{lemma_u64_pow2_no_overflow, lemma_u64_shl_is_mul};
use vstd::prelude::*;

verus! {

/// The entries of a `bits`-bit range table: `0, 1, ..., 2^bits - 1`, in
/// increasing index order.
pub open spec fn range_entries(bits: nat) -> Seq<u64> {
    Seq::new(pow2(bits), |i: int| i as u64)
}

/// Number of entries of a `bits`-bit range table.
pub fn table_size(bits: usize) -> (r: u64)
    requires
        bits < 64,
    ensures
        r == pow2(bits as nat),
{
    proof {
        lemma_u64_pow2_no_overflow(bits as nat);
        lemma_u64_shl_is_mul(1, bits as u64);
    }
    1u64 << (bits as u64)
}

/// The entries of a `bits`-bit range table, entry `i` at index `i`.
pub fn table_entries(bits: usize) -> (r: Vec<u64>)
    requires
        bits < 64,
    ensures
        r@ == range_entries(bits as nat),
{
    let size = table_size(bits);
    let mut entries: Vec<u64> = Vec::new();
    let mut i: u64 = 0;
    while i < size
        invariant
            i <= size,
            size == pow2(bits as nat),
            entries@ == range_entries(bits as nat).take(i as int),
        decreases size - i,
    {
        entries.push(i);
        i = i + 1;
        assert(entries@ =~= range_entries(bits as nat).take(i as int));
    }
    assert(entries@ =~= range_entries(bits as nat));
    entries
}

/// A `bits`-bit range table holds exactly the values below `2^bits`, each once.
pub proof fn lemma_range_table_exact(bits: nat)
    requires
        bits < 64,
    ensures
        range_entries(bits).len() == pow2(bits),
        range_entries(bits).no_duplicates(),
        forall|v: u64| #[trigger] range_entries(bits).contains(v) <==> (v as nat) < pow2(bits),
{
    lemma_u64_pow2_no_overflow(bits);
    let s = range_entries(bits);
    assert forall|v: u64| #[trigger] s.contains(v) <==> (v as nat) < pow2(bits) by {
        if (v as nat) < pow2(bits) {
            assert(s[v as int] == v);
        }
    }
}

} // verus!
