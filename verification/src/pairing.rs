//! All pairs of two integer sequences, in row order.

use vstd::prelude::*;

verus! {

/// Every element of `a` paired with every element of `b`: the pairs of the
/// first element of `a` come first, each group in the order of `b`.
pub open spec fn pairing_spec(a: Seq<i32>, b: Seq<i32>) -> Seq<(i32, i32)> {
    Seq::new(a.len() * b.len(), |k: int| (a[k / (b.len() as int)], b[k % (b.len() as int)]))
}

/// Position `i * width + j`, with `j` below `width`, lies in row `i` and
/// column `j`.
proof fn lemma_row_and_column(i: int, j: int, width: int)
    requires
        0 <= i,
        0 <= j < width,
    ensures
        (i * width + j) / width == i,
        (i * width + j) % width == j,
{
    vstd::arithmetic::div_mod::lemma_fundamental_div_mod_converse(i * width + j, width, i, j);
}

/// The pair of `a[i]` and `b[j]` stands at position `i * b.len() + j`.
pub proof fn lemma_pairing_index(a: Seq<i32>, b: Seq<i32>, i: int, j: int)
    requires
        0 <= i < a.len(),
        0 <= j < b.len(),
    ensures
        0 <= i * b.len() + j < pairing_spec(a, b).len(),
        pairing_spec(a, b)[i * b.len() + j] == (a[i], b[j]),
{
    let width = b.len() as int;
    lemma_row_and_column(i, j, width);
    assert(i * width + j < a.len() * width) by (nonlinear_arith)
        requires
            0 <= i < a.len(),
            0 <= j < width,
    ;
    assert(0 <= i * width + j) by (nonlinear_arith)
        requires
            0 <= i,
            0 <= j < width,
    ;
}

/// Where either sequence is empty there are no pairs.
pub proof fn lemma_pairing_with_empty(a: Seq<i32>, b: Seq<i32>)
    requires
        a.len() == 0 || b.len() == 0,
    ensures
        pairing_spec(a, b) == Seq::<(i32, i32)>::empty(),
{
    assert(a.len() * b.len() == 0) by (nonlinear_arith)
        requires
            a.len() == 0 || b.len() == 0,
    ;
    assert(pairing_spec(a, b) =~= Seq::<(i32, i32)>::empty());
}

/// Pairs every element of `nums1` with every element of `nums2`.
pub fn pairing(nums1: &Vec<i32>, nums2: &Vec<i32>) -> (pairs: Vec<(i32, i32)>)
    ensures
        pairs@ == pairing_spec(nums1@, nums2@),
{
    let ghost width = nums2@.len() as int;
    let mut pairs: Vec<(i32, i32)> = Vec::new();
    let mut i: usize = 0;
    while i < nums1.len()
        invariant
            i <= nums1.len(),
            width == nums2@.len(),
            pairs@.len() == i * width,
            forall|k: int|
                0 <= k < pairs@.len() ==> pairs@[k] == (
                    nums1@[k / width],
                    nums2@[k % width],
                ),
        decreases nums1.len() - i,
    {
        let mut j: usize = 0;
        while j < nums2.len()
            invariant
                i < nums1.len(),
                j <= nums2.len(),
                width == nums2@.len(),
                pairs@.len() == i * width + j,
                forall|k: int|
                    0 <= k < pairs@.len() ==> pairs@[k] == (
                        nums1@[k / width],
                        nums2@[k % width],
                    ),
            decreases nums2.len() - j,
        {
            proof {
                lemma_row_and_column(i as int, j as int, width);
            }
            pairs.push((nums1[i], nums2[j]));
            j += 1;
        }
        proof {
            assert(i * width + width == (i + 1) * width) by (nonlinear_arith);
        }
        i += 1;
    }
    assert(pairs@ =~= pairing_spec(nums1@, nums2@));
    pairs
}

} // verus!
