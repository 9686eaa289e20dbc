//! Sharing the groups of a collection among parallel workers, in contiguous chunks.
use vstd::prelude::*;

verus! {

/// The number of workers for the given hardware parallelism: one thread is left to the rest of
/// the program, and there is always at least one worker.
pub open spec fn worker_count_for(parallelism: int) -> int {
    if parallelism >= 2 {
        parallelism - 1
    } else {
        1
    }
}

/// The size of each chunk: the number of groups divided by the number of workers, rounded up,
/// and at least one.
pub open spec fn chunk_size_for(groups: int, workers: int) -> int {
    let size = groups / workers + if groups % workers == 0 {
        0int
    } else {
        1int
    };
    if size >= 1 {
        size
    } else {
        1
    }
}

/// The number of workers for the given hardware parallelism.
pub fn worker_count(parallelism: usize) -> (r: usize)
    ensures
        r == worker_count_for(parallelism as int),
        r >= 1,
{
    if parallelism >= 2 {
        parallelism - 1
    } else {
        1
    }
}

/// The number of groups in each chunk, for `group_count` groups and `workers` workers.
pub fn chunk_size(group_count: usize, workers: usize) -> (r: usize)
    requires
        workers >= 1,
    ensures
        r == chunk_size_for(group_count as int, workers as int),
        r >= 1,
        r * workers >= group_count,
{
    let quotient = group_count / workers;
    let remainder = group_count % workers;
    assert(quotient * workers + remainder == group_count && remainder < workers) by (
    nonlinear_arith)
        requires
            workers >= 1,
            quotient == group_count / workers,
            remainder == group_count % workers,
    ;
    assert(remainder > 0 ==> quotient < usize::MAX) by (nonlinear_arith)
        requires
            quotient * workers + remainder == group_count,
            group_count <= usize::MAX,
            workers >= 1,
    ;
    let size = if remainder == 0 {
        quotient
    } else {
        quotient + 1
    };
    assert(size * workers >= group_count) by (nonlinear_arith)
        requires
            size == quotient + if remainder == 0 {
                0int
            } else {
                1int
            },
            quotient * workers + remainder == group_count,
            remainder < workers,
            workers >= 1,
    ;
    assert(size == 0 ==> group_count == 0) by (nonlinear_arith)
        requires
            size == 0 ==> quotient == 0 && remainder == 0,
            quotient * workers + remainder == group_count,
    ;
    if size >= 1 {
        size
    } else {
        assert(group_count == 0);
        1
    }
}

/// The chunks of `group_count` groups for the given hardware parallelism, as ranges of positions
/// `[start, end)`: consecutive, each `chunk_size` long but the last, which may be shorter, and no
/// more of them than there are workers.
pub fn chunk_bounds(group_count: usize, parallelism: usize) -> (r: Vec<(usize, usize)>)
    ensures
        ({
            let size = chunk_size_for(
                group_count as int,
                worker_count_for(parallelism as int),
            );
            &&& forall|i: int|
                0 <= i < r.len() ==> (#[trigger] r@[i]).0 == i * size && r@[i].1 == if (i + 1)
                    * size <= group_count {
                    (i + 1) * size
                } else {
                    group_count as int
                }
            &&& r.len() * size >= group_count
            &&& r.len() == 0 || (r.len() - 1) * size < group_count
            &&& r.len() <= worker_count_for(parallelism as int)
        }),
{
    let workers = worker_count(parallelism);
    let size = chunk_size(group_count, workers);
    let mut r: Vec<(usize, usize)> = Vec::new();
    let mut start: usize = 0;
    while start < group_count
        invariant
            size >= 1,
            size * workers >= group_count,
            r.len() <= workers,
            start == if r.len() * size <= group_count {
                r.len() * size
            } else {
                group_count as int
            },
            r.len() == 0 || (r.len() - 1) * size < group_count,
            forall|i: int|
                0 <= i < r.len() ==> (#[trigger] r@[i]).0 == i * size && r@[i].1 == if (i + 1)
                    * size <= group_count {
                    (i + 1) * size
                } else {
                    group_count as int
                },
        decreases group_count - start,
    {
        assert(start == r.len() * size);
        assert(r.len() < workers) by (nonlinear_arith)
            requires
                start == r.len() * size,
                start < group_count,
                size * workers >= group_count,
                size >= 1,
        ;
        assert((r.len() + 1) * size == start + size) by (nonlinear_arith)
            requires
                start == r.len() * size,
        ;
        let end = if group_count - start >= size {
            start + size
        } else {
            group_count
        };
        r.push((start, end));
        start = end;
    }
    r
}

} // verus!
