//! Left-to-right tiling of outputs in the shared display space.

use vstd::prelude::*;

verus! {

/// Sum of the first `n` widths, as a mathematical integer.
pub open spec fn width_sum(widths: Seq<i32>, n: int) -> int
    decreases n,
{
    if n <= 0 {
        0
    } else {
        width_sum(widths, n - 1) + widths[n - 1]
    }
}

/// The x-offset at which the next output is placed: the total width of the
/// outputs that are already mapped.
pub open spec fn next_offset(widths: Seq<i32>) -> int {
    width_sum(widths, widths.len() as int)
}

/// Whether the widths can be summed up, one after the other, within the
/// coordinate type.
pub open spec fn fits(widths: Seq<i32>) -> bool {
    forall|k: int|
        0 <= k <= widths.len() ==> i32::MIN <= #[trigger] width_sum(widths, k) <= i32::MAX
}

/// Horizontal position for a new output, given the widths of the outputs that
/// are already mapped, in mapping order: outputs are tiled from left to
/// right, so the position is the sum of those widths. `None` exactly when the
/// running total leaves the coordinate type.
pub fn next_output_x(widths: &Vec<i32>) -> (x: Option<i32>)
    ensures
        x.is_some() <==> fits(widths@),
        x.is_some() ==> x.unwrap() == next_offset(widths@),
{
    let mut acc: i32 = 0;
    let mut i: usize = 0;
    while i < widths.len()
        invariant
            0 <= i <= widths@.len(),
            acc == width_sum(widths@, i as int),
            forall|k: int|
                0 <= k <= i ==> i32::MIN <= #[trigger] width_sum(widths@, k) <= i32::MAX,
        decreases widths@.len() - i,
    {
        let w: i32 = widths[i];
        match acc.checked_add(w) {
            Some(next) => {
                acc = next;
            },
            None => {
                assert(width_sum(widths@, i + 1) == acc + w);
                return None;
            },
        }
        i += 1;
    }
    Some(acc)
}

} // verus!
