use vstd::prelude::*;
use ringbuf::HeapRb;
use ringbuf::Rb;

verus! {

/// A heap ring buffer of ringbuf holding strings. Verus does not take the
/// buffer's own type (its container parameter is bound by a trait of
/// ringbuf), so the buffer lives in this struct, which Verus sees only
/// through `ring_items` and `ring_capacity`.
#[verifier::external_body]
pub struct StringRing {
    rb: HeapRb<String>,
}

/// The strings held by a heap ring buffer, oldest first.
pub uninterp spec fn ring_items(rb: StringRing) -> Seq<Seq<char>>;

/// The capacity a heap ring buffer was created with.
pub uninterp spec fn ring_capacity(rb: StringRing) -> nat;

/// `HeapRb::new` of ringbuf: an empty buffer of the given capacity. The
/// crate panics on a zero capacity, which `requires` leaves out; a failed
/// allocation aborts as any allocation does.
#[verifier::external_body]
pub(crate) fn ring_new(capacity: usize) -> (rb: StringRing)
    requires
        capacity > 0,
    ensures
        ring_items(rb) == Seq::<Seq<char>>::empty(),
        ring_capacity(rb) == capacity,
{
    StringRing { rb: HeapRb::new(capacity) }
}

/// `Rb::push_overwrite` of ringbuf: when the buffer is full the oldest item
/// is removed first, then `item` is appended as the newest one. The capacity
/// stays. The contents are stated for every buffer whose length does not
/// exceed its capacity, which is every buffer the crate builds.
#[verifier::external_body]
pub(crate) fn ring_push_overwrite(rb: &mut StringRing, item: String)
    ensures
        ring_capacity(*final(rb)) == ring_capacity(*old(rb)),
        ring_items(*old(rb)).len() <= ring_capacity(*old(rb)) ==> ring_items(*final(rb)) == (if ring_items(*old(rb)).len() == ring_capacity(*old(rb)) {
            ring_items(*old(rb)).drop_first()
        } else {
            ring_items(*old(rb))
        }).push(item@),
{
    rb.rb.push_overwrite(item);
}

/// `Rb::iter` of ringbuf walked backwards: copies of the items, newest
/// first.
#[verifier::external_body]
pub(crate) fn ring_newest_first(rb: &StringRing) -> (v: Vec<String>)
    ensures
        v@.len() == ring_items(*rb).len(),
        forall|i: int| 0 <= i < v@.len() ==> #[trigger] v@[i]@ == ring_items(*rb)[ring_items(*rb).len() - 1 - i],
{
    rb.rb.iter().rev().cloned().collect()
}

} // verus!
