//! The pending-triggered-timer buffer: a fixed-capacity deque of timer ids,
//! kept in an `arraydeque::ArrayDeque`. Verus cannot declare that type (its
//! behaviour marker is an outside trait bound), so the deque is held in an
//! opaque struct; its contents are named by an uninterpreted sequence, and
//! the few methods the timer subsystem calls are trusted wrappers whose
//! contracts state what the crate's source shows.
//!
//! The buffer's capacity is fixed at 16 ids: the number of distinct timers
//! that can plausibly co-expire between two sweeps.

use vstd::prelude::*;

use arraydeque::ArrayDeque;
use arraydeque::Saturating;

verus! {

/// A fixed-capacity buffer of timer ids, backed by
/// `arraydeque::ArrayDeque<usize, 16, Saturating>`.
#[verifier::external_body]
pub struct PendingBuffer {
    inner: ArrayDeque<usize, 16, Saturating>,
}

/// The ids held by the buffer, front first.
pub uninterp spec fn pending_seq(d: PendingBuffer) -> Seq<usize>;

/// Relies on arraydeque::ArrayDeque::new: creates an empty deque.
#[verifier::external_body]
pub fn pending_new() -> (d: PendingBuffer)
    ensures
        pending_seq(d) == Seq::<usize>::empty(),
{
    PendingBuffer { inner: ArrayDeque::new() }
}

/// Relies on arraydeque::ArrayDeque::len: the number of held ids.
#[verifier::external_body]
pub fn pending_len(d: &PendingBuffer) -> (n: usize)
    ensures
        n == pending_seq(*d).len(),
{
    d.inner.len()
}

/// Relies on arraydeque::ArrayDeque::push_front (saturating behaviour): when
/// the deque is not full the id is prepended and `Ok` returned; a push onto a
/// full deque returns `Err(CapacityError)` and leaves the deque unchanged.
#[verifier::external_body]
pub fn pending_push_front(d: &mut PendingBuffer, id: usize) -> (r: bool)
    ensures
        r == (pending_seq(*old(d)).len() < 16),
        r ==> pending_seq(*final(d)) == seq![id] + pending_seq(*old(d)),
        !r ==> pending_seq(*final(d)) == pending_seq(*old(d)),
{
    d.inner.push_front(id).is_ok()
}

/// Relies on arraydeque::ArrayDeque::pop_back: removes and returns the last
/// id, or `None` when the deque is empty.
#[verifier::external_body]
pub fn pending_pop_back(d: &mut PendingBuffer) -> (r: Option<usize>)
    ensures
        pending_seq(*old(d)).len() == 0 ==> r is None && pending_seq(*final(d)) == pending_seq(
            *old(d),
        ),
        pending_seq(*old(d)).len() > 0 ==> r == Some(pending_seq(*old(d)).last()) && pending_seq(
            *final(d),
        ) == pending_seq(*old(d)).drop_last(),
{
    d.inner.pop_back()
}

} // verus!
