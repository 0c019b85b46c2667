use vstd::prelude::*;

use crossbeam::queue::ArrayQueue;

use crate::task_queue::{
    is_queue_capacity, new_queue, pop_task, push_task, queue_capacity, queued_tasks,
};

verus! {

/// The byte written to the socket for every posted task.
pub const NOTIFY_VALUE: i8 = 1;

/// The number of bytes written to the socket for every posted task.
pub const NOTIFY_VALUE_SIZE: usize = 1;

/// The number of bytes read from the socket at once when it is cleared.
pub const NOTIFY_BUFFER_SIZE: usize = 128;

/// A write that tells the host to call the event handler.
#[derive(Clone, Copy, Debug, PartialEq, Eq, Structural)]
pub struct Notification {
    /// The socket to write to.
    pub fd: i32,
    /// The value to write.
    pub value: i8,
    /// The number of bytes to write, all of which have to go out.
    pub size: usize,
}

/// What the host is told when an event handler is registered with its run loop.
#[derive(Clone, Copy, Debug, PartialEq, Eq, Structural)]
pub struct Registration {
    /// The address of the event handler's COM interface.
    pub event_handler: usize,
    /// The socket that the host polls.
    pub fd: i32,
}

/// What happens while a host's call to `onFDIsSet()` is handled.
#[derive(Clone, Copy, Debug, PartialEq, Eq, Structural)]
pub enum FdEvent {
    /// The host has made the call.
    Ready,
    /// A read from the socket has returned this.
    SocketRead(isize),
    /// A task has been executed.
    TaskExecuted,
}

/// What is to be done next while a host's call to `onFDIsSet()` is handled.
#[derive(Clone, Copy, Debug, PartialEq, Eq, Structural)]
pub enum FdAction {
    /// Read up to `size` bytes from the socket.
    ReadSocket { fd: i32, size: usize },
    /// Execute a task on the current thread, which is the GUI thread.
    Execute(u64),
    /// Return to the host.
    Finish,
}

/// What is to be done to take down an event handler.
#[derive(Clone, Copy, Debug, PartialEq, Eq, Structural)]
pub struct Teardown {
    /// Whether some outstanding task could not be handed on and was dropped.
    pub posting_failed: bool,
    /// The first socket to close.
    pub socket_read_fd: i32,
    /// The second socket to close.
    pub socket_write_fd: i32,
    /// The event handler to unregister from the run loop, if one was registered.
    pub unregister: Option<usize>,
}

/// The state of a [`RunLoopEventHandler`].
pub struct HandlerModel {
    pub socket_read_fd: i32,
    pub socket_write_fd: i32,
    /// The tasks that still need to be performed, the oldest first.
    pub tasks: Seq<u64>,
    pub capacity: nat,
    /// The registered event handler, or zero.
    pub event_handler: usize,
    /// The number of calls from the host that have not returned yet. There is more than one when
    /// a task that is run in a call makes the host call again.
    pub calls: u64,
}

impl HandlerModel {
    /// The queue never holds more than it was made for.
    pub open spec fn wf(self) -> bool {
        self.tasks.len() <= self.capacity
    }

    /// The same handler with these tasks waiting.
    pub open spec fn with_tasks(self, tasks: Seq<u64>) -> HandlerModel {
        HandlerModel { tasks, ..self }
    }

    /// The event handler that is registered with the run loop, if one is.
    pub open spec fn registered(self) -> Option<usize> {
        if self.event_handler == 0 {
            None
        } else {
            Some(self.event_handler)
        }
    }

    /// Whether there is no room for another task.
    pub open spec fn is_full(self) -> bool {
        self.tasks.len() >= self.capacity
    }

    /// The handler after `task` was posted.
    pub open spec fn posted(self, task: u64) -> HandlerModel {
        if self.is_full() {
            self
        } else {
            self.with_tasks(self.tasks.push(task))
        }
    }

    /// The write that announces a posted task.
    pub open spec fn notification(self) -> Notification {
        Notification { fd: self.socket_write_fd, value: NOTIFY_VALUE, size: NOTIFY_VALUE_SIZE }
    }

    /// What a post of `task` returns.
    pub open spec fn post_outcome(self, task: u64) -> Result<Notification, u64> {
        if self.is_full() {
            Err(task)
        } else {
            Ok(self.notification())
        }
    }

    /// Whether the socket has to be read (again) after `event`.
    pub open spec fn reads_after(event: FdEvent) -> bool {
        match event {
            FdEvent::Ready => true,
            FdEvent::SocketRead(count) => count > 0,
            FdEvent::TaskExecuted => false,
        }
    }

    /// What follows `event`: the socket is read until it is empty, then the waiting tasks are
    /// executed one by one, the oldest first.
    pub open spec fn fd_action(self, event: FdEvent) -> FdAction {
        if HandlerModel::reads_after(event) {
            FdAction::ReadSocket { fd: self.socket_read_fd, size: NOTIFY_BUFFER_SIZE }
        } else if self.tasks.len() > 0 {
            FdAction::Execute(self.tasks[0])
        } else {
            FdAction::Finish
        }
    }

    /// The calls in progress after `event`: one more when the host has made a call, one less when
    /// a call returns. The count stops at what it can represent.
    pub open spec fn calls_after(self, event: FdEvent) -> u64 {
        if event is Ready {
            if self.calls < u64::MAX {
                (self.calls + 1) as u64
            } else {
                self.calls
            }
        } else if self.fd_action(event) is Finish && self.calls > 0 {
            (self.calls - 1) as u64
        } else {
            self.calls
        }
    }

    /// The handler after `event`: a task that is to be executed has left the queue.
    pub open spec fn after_fd_event(self, event: FdEvent) -> HandlerModel {
        HandlerModel {
            tasks: if self.fd_action(event) is Execute {
                self.tasks.drop_first()
            } else {
                self.tasks
            },
            calls: self.calls_after(event),
            ..self
        }
    }
}

/// Handles tasks on the GUI thread of a host that offers a run loop.
///
/// The host polls a socket and calls the handler when it can be read. One byte is written to the
/// socket for every posted task. Tasks are represented by numbers that their owner has assigned
/// to them.
pub struct RunLoopEventHandler {
    socket_read_fd: i32,
    socket_write_fd: i32,
    tasks: ArrayQueue<u64>,
    event_handler: usize,
    calls: u64,
}

impl View for RunLoopEventHandler {
    type V = HandlerModel;

    closed spec fn view(&self) -> HandlerModel {
        HandlerModel {
            socket_read_fd: self.socket_read_fd,
            socket_write_fd: self.socket_write_fd,
            tasks: queued_tasks(self.tasks),
            capacity: queue_capacity(self.tasks),
            event_handler: self.event_handler,
            calls: self.calls,
        }
    }
}

impl RunLoopEventHandler {
    /// A handler for a connected pair of sockets, the first of which the host polls, with room
    /// for `capacity` tasks. It is not registered yet.
    pub fn new(sockets: [i32; 2], capacity: usize) -> (handler: RunLoopEventHandler)
        requires
            is_queue_capacity(capacity),
        ensures
            handler@.socket_read_fd == sockets@[0],
            handler@.socket_write_fd == sockets@[1],
            handler@.tasks == Seq::<u64>::empty(),
            handler@.capacity == capacity,
            handler@.event_handler == 0,
            handler@.calls == 0,
            handler@.wf(),
    {
        RunLoopEventHandler {
            socket_read_fd: sockets[0],
            socket_write_fd: sockets[1],
            tasks: new_queue(capacity),
            event_handler: 0,
            calls: 0,
        }
    }

    /// The address of the handler's COM interface, or zero before it was registered.
    pub fn event_handler(&self) -> (event_handler: usize)
        ensures
            event_handler == self@.event_handler,
    {
        self.event_handler
    }

    /// Whether a call from the host has not returned yet.
    pub fn is_in_call(&self) -> (in_call: bool)
        ensures
            in_call == (self@.calls > 0),
    {
        self.calls > 0
    }

    /// Remembers the address of the handler's COM interface, to be unregistered again later, and
    /// tells what to register with the host's run loop.
    pub fn register(&mut self, event_handler: usize) -> (registration: Registration)
        ensures
            final(self)@ == (HandlerModel { event_handler, ..old(self)@ }),
            registration == (Registration { event_handler, fd: old(self)@.socket_read_fd }),
            old(self)@.wf() ==> final(self)@.wf(),
    {
        self.event_handler = event_handler;
        Registration { event_handler, fd: self.socket_read_fd }
    }

    /// Posts a task to the queue so it will be run on the host's GUI thread later, and tells how
    /// to notify the host. Returns the task if the queue is full and the task could not be
    /// posted.
    pub fn post_task(&mut self, task: u64) -> (outcome: Result<Notification, u64>)
        ensures
            outcome == old(self)@.post_outcome(task),
            final(self)@ == old(self)@.posted(task),
            old(self)@.wf() ==> final(self)@.wf(),
    {
        match push_task(&mut self.tasks, task) {
            Ok(()) => Ok(
                Notification {
                    fd: self.socket_write_fd,
                    value: NOTIFY_VALUE,
                    size: NOTIFY_VALUE_SIZE,
                },
            ),
            Err(refused) => Err(refused),
        }
    }

    /// Advances the handling of a host's call to `onFDIsSet()`.
    ///
    /// Posting a task and writing to the socket is not atomic, so the two cannot be matched one
    /// to one. Therefore the socket is cleared first, and the tasks are executed afterwards. A
    /// task that is posted meanwhile may be executed before its byte arrives; the host then makes
    /// another call that finds the queue empty.
    pub fn on_fd_is_set(&mut self, event: FdEvent) -> (action: FdAction)
        ensures
            action == old(self)@.fd_action(event),
            final(self)@ == old(self)@.after_fd_event(event),
            old(self)@.wf() ==> final(self)@.wf(),
    {
        let reads: bool = match event {
            FdEvent::Ready => true,
            FdEvent::SocketRead(count) => count > 0,
            FdEvent::TaskExecuted => false,
        };
        if reads {
            if let FdEvent::Ready = event {
                if self.calls < u64::MAX {
                    self.calls = self.calls + 1;
                }
            }
            return FdAction::ReadSocket { fd: self.socket_read_fd, size: NOTIFY_BUFFER_SIZE };
        }
        match pop_task(&mut self.tasks) {
            Some(task) => FdAction::Execute(task),
            None => {
                if self.calls > 0 {
                    self.calls = self.calls - 1;
                }
                FdAction::Finish
            },
        }
    }

    /// Takes out the tasks that are still unprocessed when the handler goes away, the oldest
    /// first. They are to be handed to the regular event loop so no work gets lost.
    pub fn drain_tasks(&mut self) -> (tasks: Vec<u64>)
        ensures
            tasks@ == old(self)@.tasks,
            final(self)@.tasks.len() == 0,
            final(self)@ == old(self)@.with_tasks(Seq::empty()),
            final(self)@.wf(),
    {
        let mut drained: Vec<u64> = Vec::new();
        loop
            invariant
                old(self)@.tasks =~= drained@ + self@.tasks,
                self@ == old(self)@.with_tasks(self@.tasks),
            ensures
                self@.tasks.len() == 0,
            decreases self@.tasks.len(),
        {
            match pop_task(&mut self.tasks) {
                Some(task) => {
                    drained.push(task);
                },
                None => {
                    break;
                },
            }
        }
        assert(self@.tasks =~= Seq::empty());
        drained
    }

    /// Tells how to take down a handler whose outstanding tasks have been offered to the regular
    /// event loop. `scheduled` holds for each of them whether it was accepted there.
    pub fn teardown(&self, scheduled: &Vec<bool>) -> (teardown: Teardown)
        ensures
            teardown.posting_failed == scheduled@.contains(false),
            teardown.socket_read_fd == self@.socket_read_fd,
            teardown.socket_write_fd == self@.socket_write_fd,
            teardown.unregister == self@.registered(),
            teardown.unregister is None <==> self@.event_handler == 0,
            teardown.unregister matches Some(address) ==> address == self@.event_handler,
    {
        let mut posting_failed: bool = false;
        let mut i: usize = 0;
        while i < scheduled.len()
            invariant
                i <= scheduled@.len(),
                posting_failed <==> exists|j: int| 0 <= j < i && scheduled@[j] == false,
            decreases scheduled@.len() - i,
        {
            posting_failed = posting_failed || !scheduled[i];
            i += 1;
        }
        Teardown {
            posting_failed,
            socket_read_fd: self.socket_read_fd,
            socket_write_fd: self.socket_write_fd,
            unregister: if self.event_handler == 0 {
                None
            } else {
                Some(self.event_handler)
            },
        }
    }
}

/// What can be done with an event handler while it exists.
pub enum HandlerOp {
    Register(usize),
    Post(u64),
    Fd(FdEvent),
    Drain,
}

impl HandlerModel {
    /// The handler after `op`.
    pub open spec fn after_op(self, op: HandlerOp) -> HandlerModel {
        match op {
            HandlerOp::Register(event_handler) => HandlerModel { event_handler, ..self },
            HandlerOp::Post(task) => self.posted(task),
            HandlerOp::Fd(event) => self.after_fd_event(event),
            HandlerOp::Drain => self.with_tasks(Seq::empty()),
        }
    }

    /// The tasks that `op` accepts from a caller.
    pub open spec fn accepted_by(self, op: HandlerOp) -> Seq<u64> {
        match op {
            HandlerOp::Post(task) => if self.post_outcome(task) is Ok {
                seq![task]
            } else {
                Seq::empty()
            },
            _ => Seq::empty(),
        }
    }

    /// The tasks that `op` gives out, to be executed or to be scheduled elsewhere.
    pub open spec fn released_by(self, op: HandlerOp) -> Seq<u64> {
        match op {
            HandlerOp::Fd(event) => match self.fd_action(event) {
                FdAction::Execute(task) => seq![task],
                _ => Seq::empty(),
            },
            HandlerOp::Drain => self.tasks,
            _ => Seq::empty(),
        }
    }

    /// The handler after all of `ops`.
    pub open spec fn after_ops(self, ops: Seq<HandlerOp>) -> HandlerModel
        decreases ops.len(),
    {
        if ops.len() == 0 {
            self
        } else {
            self.after_ops(ops.drop_last()).after_op(ops.last())
        }
    }

    /// The tasks that `ops` accept, in order.
    pub open spec fn accepted(self, ops: Seq<HandlerOp>) -> Seq<u64>
        decreases ops.len(),
    {
        if ops.len() == 0 {
            Seq::empty()
        } else {
            self.accepted(ops.drop_last()) + self.after_ops(ops.drop_last()).accepted_by(ops.last())
        }
    }

    /// The tasks that `ops` give out, in order.
    pub open spec fn released(self, ops: Seq<HandlerOp>) -> Seq<u64>
        decreases ops.len(),
    {
        if ops.len() == 0 {
            Seq::empty()
        } else {
            self.released(ops.drop_last()) + self.after_ops(ops.drop_last()).released_by(ops.last())
        }
    }

    /// What is done in response to `events`, in order.
    pub open spec fn fd_actions(self, events: Seq<FdEvent>) -> Seq<FdAction>
        decreases events.len(),
    {
        if events.len() == 0 {
            Seq::empty()
        } else {
            seq![self.fd_action(events[0])] + self.after_fd_event(events[0]).fd_actions(
                events.drop_first(),
            )
        }
    }

    /// The handler after all of its tasks were executed in a call that has returned.
    pub open spec fn emptied(self) -> HandlerModel {
        HandlerModel {
            tasks: Seq::empty(),
            calls: if self.calls > 0 {
                (self.calls - 1) as u64
            } else {
                0
            },
            ..self
        }
    }

    /// The handler after all of `events`.
    pub open spec fn after_fd_events(self, events: Seq<FdEvent>) -> HandlerModel
        decreases events.len(),
    {
        if events.len() == 0 {
            self
        } else {
            self.after_fd_event(events[0]).after_fd_events(events.drop_first())
        }
    }
}

/// The events of one call to `onFDIsSet()` during which the reads in `reads` find bytes, the
/// read `last` finds none, and then `tasks` tasks are executed.
pub open spec fn call_events(reads: Seq<isize>, last: isize, tasks: nat) -> Seq<FdEvent> {
    seq![FdEvent::Ready] + reads.map_values(|count: isize| FdEvent::SocketRead(count))
        + task_events(FdEvent::SocketRead(last), tasks)
}

/// `first`, and then the completion of `tasks` tasks.
pub open spec fn task_events(first: FdEvent, tasks: nat) -> Seq<FdEvent> {
    seq![first] + Seq::new(tasks, |i: int| FdEvent::TaskExecuted)
}

/// The execution of `tasks`, in order, and then the return to the host.
pub open spec fn task_actions(tasks: Seq<u64>) -> Seq<FdAction> {
    tasks.map_values(|task: u64| FdAction::Execute(task)).push(FdAction::Finish)
}

/// No work gets lost: whatever is done with a handler, the tasks that were waiting and those
/// accepted since are exactly the ones given out so far followed by the ones still waiting, in
/// the order of their arrival. The queue stays within its capacity throughout.
pub proof fn lemma_no_task_is_lost(handler: HandlerModel, ops: Seq<HandlerOp>)
    requires
        handler.wf(),
    ensures
        handler.tasks + handler.accepted(ops) == handler.released(ops) + handler.after_ops(
            ops,
        ).tasks,
        handler.after_ops(ops).wf(),
    decreases ops.len(),
{
    if ops.len() > 0 {
        let before = handler.after_ops(ops.drop_last());
        let op = ops.last();
        lemma_no_task_is_lost(handler, ops.drop_last());
        assert(before.tasks + before.accepted_by(op) =~= before.released_by(op) + before.after_op(
            op,
        ).tasks);
        assert(handler.tasks + handler.accepted(ops) =~= (handler.tasks + handler.accepted(
            ops.drop_last(),
        )) + before.accepted_by(op));
        assert(handler.released(ops) + handler.after_ops(ops).tasks =~= handler.released(
            ops.drop_last(),
        ) + (before.released_by(op) + before.after_op(op).tasks));
    } else {
        assert(handler.tasks + handler.accepted(ops) =~= handler.released(ops)
            + handler.after_ops(ops).tasks);
    }
}

/// Whatever is done with a handler, it keeps its sockets and its capacity, and the event handler
/// that was registered last is the one that will be unregistered.
pub proof fn lemma_registration_is_kept(
    handler: HandlerModel,
    event_handler: usize,
    ops: Seq<HandlerOp>,
)
    requires
        event_handler != 0,
        forall|i: int| 0 <= i < ops.len() ==> !(#[trigger] ops[i] is Register),
    ensures
        handler.after_op(HandlerOp::Register(event_handler)).after_ops(ops).registered() == Some(
            event_handler,
        ),
        handler.after_op(HandlerOp::Register(event_handler)).after_ops(ops).socket_read_fd
            == handler.socket_read_fd,
        handler.after_op(HandlerOp::Register(event_handler)).after_ops(ops).socket_write_fd
            == handler.socket_write_fd,
        handler.after_op(HandlerOp::Register(event_handler)).after_ops(ops).capacity
            == handler.capacity,
    decreases ops.len(),
{
    if ops.len() > 0 {
        lemma_registration_is_kept(handler, event_handler, ops.drop_last());
    }
}

/// Once the socket has been found empty, the waiting tasks are executed in the order in which
/// they were posted, until none is left. Then the call returns.
pub proof fn lemma_tasks_run_in_order(handler: HandlerModel, event: FdEvent)
    requires
        !HandlerModel::reads_after(event),
    ensures
        handler.fd_actions(task_events(event, handler.tasks.len())) == task_actions(handler.tasks),
        handler.after_fd_events(task_events(event, handler.tasks.len())) == handler.emptied(),
    decreases handler.tasks.len(),
{
    let events = task_events(event, handler.tasks.len());
    let rest = handler.after_fd_event(event);
    assert(events[0] == event);
    if handler.tasks.len() == 0 {
        reveal_with_fuel(HandlerModel::fd_actions, 2);
        reveal_with_fuel(HandlerModel::after_fd_events, 2);
        assert(events.drop_first() =~= Seq::empty());
        assert(handler.tasks =~= Seq::empty());
        assert(handler.fd_actions(events) =~= task_actions(handler.tasks));
    } else {
        lemma_tasks_run_in_order(rest, FdEvent::TaskExecuted);
        assert(events.drop_first() =~= task_events(FdEvent::TaskExecuted, rest.tasks.len()));
        assert(handler.fd_actions(events) =~= task_actions(handler.tasks));
    }
}

/// A call to `onFDIsSet()` clears the socket before it touches the queue, and then executes
/// every waiting task once, the oldest first. When it has returned, the calls in progress are
/// those there were before.
pub proof fn lemma_call_runs_all_tasks(handler: HandlerModel, reads: Seq<isize>, last: isize)
    requires
        forall|i: int| 0 <= i < reads.len() ==> reads[i] > 0,
        last <= 0,
        handler.calls < u64::MAX,
    ensures
        handler.fd_actions(call_events(reads, last, handler.tasks.len())) == Seq::new(
            reads.len() + 1,
            |i: int|
                FdAction::ReadSocket { fd: handler.socket_read_fd, size: NOTIFY_BUFFER_SIZE },
        ) + task_actions(handler.tasks),
        handler.after_fd_events(call_events(reads, last, handler.tasks.len()))
            == handler.with_tasks(Seq::empty()),
{
    let called = handler.after_fd_event(FdEvent::Ready);
    let tail = task_events(FdEvent::SocketRead(last), handler.tasks.len());
    let head = reads.map_values(|count: isize| FdEvent::SocketRead(count));
    let events = call_events(reads, last, handler.tasks.len());
    lemma_tasks_run_in_order(called, FdEvent::SocketRead(last));
    assert forall|i: int| 0 <= i < head.len() implies #[trigger] head[i] is SocketRead
        && HandlerModel::reads_after(head[i]) by {
        assert(reads[i] > 0);
    }
    lemma_reads_leave_queue_alone(called, head, tail);
    assert(events[0] == FdEvent::Ready);
    assert(events.drop_first() =~= head + tail);
    assert(handler.fd_actions(events) =~= Seq::new(
        reads.len() + 1,
        |i: int| FdAction::ReadSocket { fd: handler.socket_read_fd, size: NOTIFY_BUFFER_SIZE },
    ) + task_actions(handler.tasks));
}

/// Reads that find bytes do not touch the queue, whatever follows them.
proof fn lemma_reads_leave_queue_alone(
    handler: HandlerModel,
    head: Seq<FdEvent>,
    tail: Seq<FdEvent>,
)
    requires
        forall|i: int|
            0 <= i < head.len() ==> #[trigger] head[i] is SocketRead && HandlerModel::reads_after(
                head[i],
            ),
    ensures
        handler.fd_actions(head + tail) == Seq::new(
            head.len(),
            |i: int|
                FdAction::ReadSocket { fd: handler.socket_read_fd, size: NOTIFY_BUFFER_SIZE },
        ) + handler.fd_actions(tail),
        handler.after_fd_events(head + tail) == handler.after_fd_events(tail),
    decreases head.len(),
{
    let read = FdAction::ReadSocket { fd: handler.socket_read_fd, size: NOTIFY_BUFFER_SIZE };
    if head.len() == 0 {
        assert(head + tail =~= tail);
        assert(Seq::new(head.len(), |i: int| read) + handler.fd_actions(tail)
            =~= handler.fd_actions(tail));
    } else {
        lemma_reads_leave_queue_alone(handler, head.drop_first(), tail);
        assert((head + tail).drop_first() =~= head.drop_first() + tail);
        assert((head + tail)[0] == head[0]);
        assert(handler.fd_actions(head + tail) =~= Seq::new(head.len(), |i: int| read)
            + handler.fd_actions(tail));
    }
}

/// A post puts the task behind those that wait, or gives it back if the queue is full. For a task
/// that was accepted, one byte of value 1 is to be written to the socket that the host does not
/// poll. Nothing else about the handler changes.
pub proof fn lemma_post_effect(handler: HandlerModel, task: u64)
    ensures
        handler.tasks.len() < handler.capacity ==> {
            &&& handler.post_outcome(task) matches Ok(notification) && notification.fd
                == handler.socket_write_fd && notification.value == 1 && notification.size == 1
            &&& handler.posted(task).tasks == handler.tasks.push(task)
        },
        handler.tasks.len() >= handler.capacity ==> {
            &&& handler.post_outcome(task) == Err::<Notification, u64>(task)
            &&& handler.posted(task).tasks == handler.tasks
        },
        handler.posted(task).socket_read_fd == handler.socket_read_fd,
        handler.posted(task).socket_write_fd == handler.socket_write_fd,
        handler.posted(task).capacity == handler.capacity,
        handler.posted(task).event_handler == handler.event_handler,
        handler.posted(task).calls == handler.calls,
{
}

/// When the host has made a call or a read has found bytes, the socket that the host polls is
/// read, 128 bytes at once. After any other event the oldest task is executed, and the call
/// returns when there is none.
pub proof fn lemma_fd_action(handler: HandlerModel, event: FdEvent)
    ensures
        (event == FdEvent::Ready || (event matches FdEvent::SocketRead(count) && count > 0))
            ==> handler.fd_action(event) == (FdAction::ReadSocket {
            fd: handler.socket_read_fd,
            size: 128,
        }),
        (event == FdEvent::TaskExecuted || (event matches FdEvent::SocketRead(count) && count
            <= 0)) && handler.tasks.len() > 0 ==> handler.fd_action(event) == FdAction::Execute(
            handler.tasks[0],
        ),
        (event == FdEvent::TaskExecuted || (event matches FdEvent::SocketRead(count) && count
            <= 0)) && handler.tasks.len() == 0 ==> handler.fd_action(event) == FdAction::Finish,
{
}

/// An event changes no more than this about a handler: a task that is to be executed leaves the
/// front of the queue, a call that is made counts as in progress, and one that returns does not
/// any longer.
pub proof fn lemma_fd_effect(handler: HandlerModel, event: FdEvent)
    ensures
        handler.fd_action(event) matches FdAction::Execute(task) ==> seq![task]
            + handler.after_fd_event(event).tasks == handler.tasks,
        !(handler.fd_action(event) is Execute) ==> handler.after_fd_event(event).tasks
            == handler.tasks,
        event == FdEvent::Ready && handler.calls < u64::MAX ==> handler.after_fd_event(event).calls
            == handler.calls + 1,
        handler.fd_action(event) is Finish && handler.calls > 0 ==> handler.after_fd_event(
            event,
        ).calls + 1 == handler.calls,
        event != FdEvent::Ready && !(handler.fd_action(event) is Finish)
            ==> handler.after_fd_event(event).calls == handler.calls,
        event == FdEvent::Ready && handler.calls == u64::MAX ==> handler.after_fd_event(event).calls
            == handler.calls,
        handler.fd_action(event) is Finish && handler.calls == 0 ==> handler.after_fd_event(
            event,
        ).calls == 0,
        handler.after_fd_event(event).socket_read_fd == handler.socket_read_fd,
        handler.after_fd_event(event).socket_write_fd == handler.socket_write_fd,
        handler.after_fd_event(event).capacity == handler.capacity,
        handler.after_fd_event(event).event_handler == handler.event_handler,
{
    if handler.fd_action(event) is Execute {
        assert(seq![handler.tasks[0]] + handler.tasks.drop_first() =~= handler.tasks);
    }
}

/// Exchanging the tasks of a handler changes nothing else, a handler is registered if and only
/// if it has an address, and it is within its capacity if and only if its tasks fit.
pub proof fn lemma_handler_fields(handler: HandlerModel, tasks: Seq<u64>)
    ensures
        handler.with_tasks(tasks).tasks == tasks,
        handler.with_tasks(tasks).socket_read_fd == handler.socket_read_fd,
        handler.with_tasks(tasks).socket_write_fd == handler.socket_write_fd,
        handler.with_tasks(tasks).capacity == handler.capacity,
        handler.with_tasks(tasks).event_handler == handler.event_handler,
        handler.with_tasks(tasks).calls == handler.calls,
        handler.event_handler == 0 ==> handler.registered() is None,
        handler.event_handler != 0 ==> handler.registered() == Some(handler.event_handler),
        handler.wf() <==> handler.tasks.len() <= handler.capacity,
{
}

} // verus!
