//! Bookkeeping of a parallel scan: when to report progress, and handing a
//! worker's last partial batch over to the collected results.
use vstd::prelude::*;

verus! {

/// Files between two progress reports.
pub const PROGRESS_STEP: usize = 100;

/// Whether progress is due: at least `PROGRESS_STEP` files since the last
/// report. A count older than the last report (read before another worker
/// reported) is never due, and never underflows.
pub fn progress_update_due(count: usize, last_reported: usize) -> (r: bool)
    ensures
        r == (count >= last_reported && count - last_reported >= PROGRESS_STEP),
{
    count.saturating_sub(last_reported) >= PROGRESS_STEP
}

/// Hands a worker's pending batch over: a non-empty batch joins the
/// collected batches and its size is added to the total (wrapping, as an
/// atomic counter does); an empty one changes nothing. The batch is left
/// empty.
pub fn flush_batch<T>(batch: &mut Vec<T>, all_batches: &mut Vec<Vec<T>>, total: &mut usize)
    ensures
        final(batch)@.len() == 0,
        old(batch)@.len() == 0 ==> final(all_batches)@ == old(all_batches)@ && *final(total) == *old(
            total,
        ),
        old(batch)@.len() > 0 ==> final(all_batches)@.len() == old(all_batches)@.len() + 1
            && final(all_batches)@.drop_last() == old(all_batches)@ && final(all_batches)@.last()@
            == old(batch)@ && *final(total) == (*old(total) + old(batch)@.len()) % (usize::MAX as int
            + 1),
{
    if batch.len() > 0 {
        let mut taken: Vec<T> = Vec::new();
        std::mem::swap(batch, &mut taken);
        let len = taken.len();
        all_batches.push(taken);
        *total = total.wrapping_add(len);
    }
}

} // verus!
