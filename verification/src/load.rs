//! Load generation of the echo benchmark: the request payload and the
//! number of workers.
use vstd::prelude::*;

verus! {

/// The byte at position `i` of a payload: a pattern that is not constant,
/// so that an echo can be checked byte for byte.
pub open spec fn payload_byte(i: int) -> u8 {
    (i % 251) as u8
}

/// A payload of `size` bytes following [`payload_byte`].
pub fn make_payload(size: usize) -> (r: Vec<u8>)
    ensures
        r@.len() == size,
        forall|i: int| 0 <= i < size ==> #[trigger] r@[i] == payload_byte(i),
{
    let mut v: Vec<u8> = Vec::new();
    let mut i: usize = 0;
    while i < size
        invariant
            i <= size,
            v@.len() == i,
            forall|j: int| 0 <= j < i ==> #[trigger] v@[j] == payload_byte(j),
        decreases size - i,
    {
        v.push((i % 251) as u8);
        i = i + 1;
    }
    v
}

/// The number of workers for a requested concurrency: at least one.
pub fn worker_count(concurrency: usize) -> (r: usize)
    ensures
        r == (if concurrency == 0 {
            1
        } else {
            concurrency
        }),
{
    if concurrency == 0 {
        1
    } else {
        concurrency
    }
}

/// Whether a worker that drew ticket `ticket` from the shared counter sends
/// a request, in a run of `total` requests: tickets `0` to `total - 1` do.
pub fn ticket_sends(ticket: u64, total: u64) -> (r: bool)
    ensures
        r == (ticket < total),
{
    ticket < total
}

} // verus!
