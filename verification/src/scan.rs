//! The cursor rule of the plain log scanner: after a scan, start the next one
//! just above the highest block that held a log.
use vstd::prelude::*;

verus! {

/// Whether `top` is the highest of the block numbers in `blocks`: one of them,
/// and at least each of them.
pub open spec fn is_highest(blocks: Seq<u64>, top: u64) -> bool {
    &&& exists|i: int| 0 <= i < blocks.len() && blocks[i] == top
    &&& forall|i: int| 0 <= i < blocks.len() ==> blocks[i] <= top
}

/// The block from which the next scan starts, after a scan that started at
/// `last_block` and found logs in the blocks `log_blocks`.
///
/// A scan that found nothing leaves the start where it was. Otherwise the next
/// scan starts one above the highest block that held a log. There is no such
/// block where that one is the last that a `u64` can number: the answer is
/// then `None`.
pub fn next_scan_start(last_block: u64, log_blocks: &Vec<u64>) -> (r: Option<u64>)
    ensures
        log_blocks@.len() == 0 ==> r == Some(last_block),
        log_blocks@.len() > 0 ==> match r {
            Some(start) => start > 0 && is_highest(log_blocks@, (start - 1) as u64),
            None => is_highest(log_blocks@, u64::MAX),
        },
{
    if log_blocks.len() == 0 {
        return Some(last_block);
    }
    let mut top: u64 = log_blocks[0];
    let mut i: usize = 1;
    proof {
        assert(log_blocks@.take(1)[0] == top);
    }
    while i < log_blocks.len()
        invariant
            1 <= i <= log_blocks@.len(),
            is_highest(log_blocks@.take(i as int), top),
        decreases log_blocks@.len() - i,
    {
        proof {
            let seen = log_blocks@.take(i as int);
            let more = log_blocks@.take(i + 1);
            let at = choose|j: int| 0 <= j < seen.len() && seen[j] == top;
            assert(more[at] == top);
            assert(more[i as int] == log_blocks@[i as int]);
            assert forall|j: int| 0 <= j < more.len() && j != i implies more[j] == seen[j] by {}
        }
        if log_blocks[i] >= top {
            top = log_blocks[i];
        }
        i += 1;
    }
    proof {
        assert(log_blocks@.take(i as int) =~= log_blocks@);
    }
    top.checked_add(1)
}

} // verus!
