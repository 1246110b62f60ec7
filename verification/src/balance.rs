//! The balance of an address: the sum of its unspent outputs.

use vstd::prelude::*;

verus! {

/// One unspent output, reduced to what a balance needs.
#[derive(Clone, Copy, Debug, PartialEq, Eq, Structural)]
pub struct Utxo {
    /// Amount in satoshis.
    pub value: u64,
}

/// The sum of the values of `records`, as a mathematical integer.
pub open spec fn total_value(records: Seq<Utxo>) -> nat
    decreases records.len(),
{
    if records.len() == 0 {
        0
    } else {
        total_value(records.drop_last()) + records.last().value as nat
    }
}

/// The sum of `records` where it fits in 64 bits, `None` where it does not.
pub open spec fn checked_total(records: Seq<Utxo>) -> Option<u64> {
    if total_value(records) <= u64::MAX {
        Some(total_value(records) as u64)
    } else {
        None
    }
}

/// The sum of two lists joined is the sum of their sums.
pub proof fn lemma_total_value_concat(front: Seq<Utxo>, back: Seq<Utxo>)
    ensures
        total_value(front + back) == total_value(front) + total_value(back),
    decreases back.len(),
{
    if back.len() == 0 {
        assert(front + back =~= front);
    } else {
        assert((front + back).drop_last() =~= front + back.drop_last());
        lemma_total_value_concat(front, back.drop_last());
    }
}

/// No prefix of a list sums to more than the whole list.
pub proof fn lemma_total_value_prefix(records: Seq<Utxo>, n: int)
    requires
        0 <= n <= records.len(),
    ensures
        total_value(records.take(n)) <= total_value(records),
{
    assert(records.take(n) + records.skip(n) =~= records);
    lemma_total_value_concat(records.take(n), records.skip(n));
}

/// Adds up the values of `records`, giving `None` as soon as the sum leaves `u64`.
pub fn sum_values(records: &[Utxo]) -> (total: Option<u64>)
    ensures
        total == checked_total(records@),
{
    let mut sum: u64 = 0;
    let mut i: usize = 0;
    while i < records.len()
        invariant
            i <= records.len(),
            sum == total_value(records@.take(i as int)),
        decreases records.len() - i,
    {
        proof {
            assert(records@.take(i + 1).drop_last() =~= records@.take(i as int));
        }
        match sum.checked_add(records[i].value) {
            Some(next) => {
                sum = next;
            },
            None => {
                proof {
                    lemma_total_value_prefix(records@, i + 1);
                }
                return None;
            },
        }
        i += 1;
    }
    proof {
        assert(records@.take(i as int) =~= records@);
    }
    Some(sum)
}

} // verus!
