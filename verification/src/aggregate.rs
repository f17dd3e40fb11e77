//! Adding up the readings of the cores.

use vstd::prelude::*;

verus! {

/// What one core contributes: its reading, or 0 where the read failed.
pub open spec fn contribution(outcome: Option<u64>) -> u64 {
    match outcome {
        Some(value) => value,
        None => 0,
    }
}

/// The readings of the cores, with 0 in the place of each failed read.
pub open spec fn degraded(outcomes: Seq<Option<u64>>) -> Seq<u64> {
    Seq::new(outcomes.len(), |i: int| contribution(outcomes[i]))
}

/// The arithmetic sum of `values`.
pub open spec fn sum(values: Seq<u64>) -> nat
    decreases values.len(),
{
    if values.len() == 0 {
        0
    } else {
        sum(values.drop_last()) + values.last() as nat
    }
}

/// The value recorded for one statistic: the sum of what the cores
/// contribute, taken modulo 2^64 so that it fits the recorder's counter.
pub open spec fn recorded(outcomes: Seq<Option<u64>>) -> u64 {
    (sum(degraded(outcomes)) % 0x1_0000_0000_0000_0000) as u64
}

/// A sum that fits in 64 bits is recorded exactly.
pub proof fn lemma_recorded_exact(outcomes: Seq<Option<u64>>)
    requires
        sum(degraded(outcomes)) <= u64::MAX,
    ensures
        recorded(outcomes) == sum(degraded(outcomes)),
{
}

/// A failed read changes nothing in the sum: it counts as a reading of 0.
pub proof fn lemma_failed_read_counts_zero(outcomes: Seq<Option<u64>>, core: int)
    requires
        0 <= core < outcomes.len(),
        outcomes[core] is None,
    ensures
        degraded(outcomes) == degraded(outcomes.update(core, Some(0u64))),
        recorded(outcomes) == recorded(outcomes.update(core, Some(0u64))),
{
    assert(degraded(outcomes) =~= degraded(outcomes.update(core, Some(0u64))));
}

/// The sum of one more value is the sum so far and that value.
pub proof fn lemma_sum_push(values: Seq<u64>, value: u64)
    ensures
        sum(values.push(value)) == sum(values) + value,
{
    assert(values.push(value).drop_last() =~= values);
}

/// The value to record for one statistic from the outcomes of reading its
/// handles, one outcome for each core. A failed read counts as 0.
pub fn total(outcomes: &Vec<Option<u64>>) -> (value: u64)
    ensures
        value == recorded(outcomes@),
{
    let mut value: u64 = 0;
    let mut i: usize = 0;
    let ghost mut wraps: nat = 0;
    while i < outcomes.len()
        invariant
            i <= outcomes@.len(),
            sum(degraded(outcomes@.take(i as int))) == value + wraps * 0x1_0000_0000_0000_0000,
        decreases outcomes@.len() - i,
    {
        let reading: u64 = match outcomes[i] {
            Some(count) => count,
            None => 0,
        };
        proof {
            assert(degraded(outcomes@.take(i + 1)) =~= degraded(outcomes@.take(i as int)).push(
                reading,
            ));
            lemma_sum_push(degraded(outcomes@.take(i as int)), reading);
            if value + reading > u64::MAX {
                wraps = wraps + 1;
            }
        }
        value = value.wrapping_add(reading);
        i += 1;
    }
    proof {
        assert(outcomes@.take(i as int) =~= outcomes@);
        vstd::arithmetic::div_mod::lemma_fundamental_div_mod_converse(
            sum(degraded(outcomes@)) as int,
            0x1_0000_0000_0000_0000,
            wraps as int,
            value as int,
        );
    }
    value
}

} // verus!
