//! How often each value occurs in a sequence of integers.

use std::collections::HashMap;
use vstd::prelude::*;

verus! {

broadcast use vstd::std_specs::hash::group_hash_axioms;

/// The number of positions of `s` that hold `v`.
pub open spec fn occurrences(s: Seq<i32>, v: i32) -> nat
    decreases s.len(),
{
    if s.len() == 0 {
        0
    } else {
        occurrences(s.drop_last(), v) + if s.last() == v {
            1nat
        } else {
            0nat
        }
    }
}

/// The histogram of `s`: its keys are the values that occur in `s`, and each
/// is mapped to the number of its occurrences.
pub open spec fn frequency_spec(s: Seq<i32>) -> Map<i32, u32> {
    Map::new(|v: i32| occurrences(s, v) > 0, |v: i32| occurrences(s, v) as u32)
}

/// A prefix holds a value at most as often as the whole sequence does.
pub proof fn lemma_occurrences_prefix(s: Seq<i32>, n: int, v: i32)
    requires
        0 <= n <= s.len(),
    ensures
        occurrences(s.take(n), v) <= occurrences(s, v),
    decreases s.len(),
{
    if n == s.len() {
        assert(s.take(n) =~= s);
    } else {
        assert(s.drop_last().take(n) =~= s.take(n));
        lemma_occurrences_prefix(s.drop_last(), n, v);
    }
}

/// No value occurs more often than the sequence is long, so the counts of a
/// sequence of at most `u32::MAX` values all fit in `u32`.
pub proof fn lemma_occurrences_bounded(s: Seq<i32>, v: i32)
    ensures
        occurrences(s, v) <= s.len(),
    decreases s.len(),
{
    if s.len() > 0 {
        lemma_occurrences_bounded(s.drop_last(), v);
    }
}

/// The keys of the histogram are exactly the values that occur in the
/// sequence.
pub proof fn lemma_frequency_keys(s: Seq<i32>, v: i32)
    ensures
        frequency_spec(s).contains_key(v) <==> s.contains(v),
    decreases s.len(),
{
    if s.len() > 0 {
        lemma_frequency_keys(s.drop_last(), v);
        if s.contains(v) {
            let k = choose|k: int| 0 <= k < s.len() && s[k] == v;
            if k < s.len() - 1 {
                assert(s.drop_last()[k] == v);
            }
        }
        if s.drop_last().contains(v) {
            let k = choose|k: int| 0 <= k < s.drop_last().len() && s.drop_last()[k] == v;
            assert(s[k] == v);
        }
    }
}

/// The histogram of the empty sequence has no keys.
pub proof fn lemma_frequency_of_empty()
    ensures
        frequency_spec(Seq::<i32>::empty()) == Map::<i32, u32>::empty(),
{
    assert(frequency_spec(Seq::<i32>::empty()) =~= Map::<i32, u32>::empty());
}

/// Counts how often each value occurs in `nums`. Every count must fit in
/// `u32`, which holds of any list of at most `u32::MAX` values.
pub fn frequency_count(nums: &Vec<i32>) -> (counts: HashMap<i32, u32>)
    requires
        forall|v: i32| occurrences(nums@, v) <= u32::MAX,
    ensures
        counts@ == frequency_spec(nums@),
{
    let mut counts: HashMap<i32, u32> = HashMap::new();
    let mut i: usize = 0;
    assert(counts@ =~= frequency_spec(nums@.take(0)));
    while i < nums.len()
        invariant
            i <= nums.len(),
            forall|v: i32| occurrences(nums@, v) <= u32::MAX,
            counts@ == frequency_spec(nums@.take(i as int)),
        decreases nums.len() - i,
    {
        let num = nums[i];
        let seen: u32 = match counts.get(&num) {
            Some(count) => *count,
            None => 0,
        };
        proof {
            let before = nums@.take(i as int);
            let after = nums@.take(i + 1);
            assert(after.drop_last() =~= before);
            assert(after.last() == num);
            lemma_occurrences_prefix(nums@, i + 1, num);
            assert(occurrences(after, num) == seen + 1);
            assert(counts@.insert(num, (seen + 1) as u32) =~= frequency_spec(after));
        }
        counts.insert(num, seen + 1);
        i += 1;
    }
    assert(nums@.take(i as int) =~= nums@);
    counts
}

} // verus!
