use vstd::prelude::*;

use crossbeam::queue::ArrayQueue;

verus! {

/// `crossbeam::queue::ArrayQueue`, a bounded queue of which nothing is known but what the
/// functions below say.
#[verifier::external_type_specification]
#[verifier::external_body]
#[verifier::reject_recursive_types(T)]
pub struct ExArrayQueue<T>(ArrayQueue<T>);

/// The tasks waiting in a queue, the oldest first.
pub uninterp spec fn queued_tasks(queue: ArrayQueue<u64>) -> Seq<u64>;

/// The number of tasks a queue was made to hold.
pub uninterp spec fn queue_capacity(queue: ArrayQueue<u64>) -> nat;

/// The bytes that a queue allocates for each task: the task and a 64-bit stamp.
pub const QUEUE_SLOT_SIZE: usize = 16;

/// Whether a queue can be made for `capacity` tasks: there is room for at least one, and the
/// slots do not exceed what an allocation can span.
pub open spec fn is_queue_capacity(capacity: usize) -> bool {
    0 < capacity && capacity * QUEUE_SLOT_SIZE <= isize::MAX
}

/// Calls `ArrayQueue::new`: the queue is empty and holds up to `capacity` tasks. That function
/// panics for a capacity of zero and for one whose slots cannot be allocated.
#[verifier::external_body]
pub(crate) fn new_queue(capacity: usize) -> (queue: ArrayQueue<u64>)
    requires
        is_queue_capacity(capacity),
    ensures
        queued_tasks(queue) == Seq::<u64>::empty(),
        queue_capacity(queue) == capacity,
{
    ArrayQueue::new(capacity)
}

/// Calls `ArrayQueue::push`: the task goes to the end of the queue, unless the queue is full.
/// Then the task comes back and the queue stays as it was. The exclusive reference keeps other
/// threads out while this is decided.
#[verifier::external_body]
pub(crate) fn push_task(queue: &mut ArrayQueue<u64>, task: u64) -> (outcome: Result<(), u64>)
    ensures
        queue_capacity(*final(queue)) == queue_capacity(*old(queue)),
        queued_tasks(*old(queue)).len() < queue_capacity(*old(queue)) ==> {
            &&& outcome == Ok::<(), u64>(())
            &&& queued_tasks(*final(queue)) == queued_tasks(*old(queue)).push(task)
        },
        queued_tasks(*old(queue)).len() >= queue_capacity(*old(queue)) ==> {
            &&& outcome == Err::<(), u64>(task)
            &&& queued_tasks(*final(queue)) == queued_tasks(*old(queue))
        },
{
    queue.push(task)
}

/// Calls `ArrayQueue::pop`: the oldest task leaves the queue, if there is one. The exclusive
/// reference keeps other threads out meanwhile.
#[verifier::external_body]
pub(crate) fn pop_task(queue: &mut ArrayQueue<u64>) -> (task: Option<u64>)
    ensures
        queue_capacity(*final(queue)) == queue_capacity(*old(queue)),
        queued_tasks(*old(queue)).len() == 0 ==> {
            &&& task is None
            &&& queued_tasks(*final(queue)) == queued_tasks(*old(queue))
        },
        queued_tasks(*old(queue)).len() > 0 ==> {
            &&& task == Some(queued_tasks(*old(queue))[0])
            &&& queued_tasks(*final(queue)) == queued_tasks(*old(queue)).drop_first()
        },
{
    queue.pop()
}

} // verus!
