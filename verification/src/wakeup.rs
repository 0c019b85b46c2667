use vstd::prelude::*;

use crate::run_loop::{FdAction, FdEvent, HandlerModel, NOTIFY_BUFFER_SIZE};

verus! {

/// How far the handling of a call from the host has come.
pub enum CallPhase {
    /// A read from the socket is under way.
    Clearing,
    /// A task is being executed.
    Running,
}

/// An event handler together with the socket between its users and its host.
pub struct LoopModel {
    pub handler: HandlerModel,
    /// The number of bytes for posted tasks that have not been written yet.
    pub unwritten: nat,
    /// The number of bytes that can be read from the socket.
    pub unread: nat,
    /// The calls from the host that have not returned yet, the innermost last.
    pub calls: Seq<CallPhase>,
}

/// What can happen next. Tasks are posted and their bytes written by any number of threads, one
/// after the other, while the host's thread handles its calls. These nest: only the innermost one
/// goes on until it returns.
pub enum LoopStep {
    /// A task is posted.
    Post(u64),
    /// A byte for a task that was posted is written.
    Write,
    /// The host makes a call.
    Call,
    /// The read that is under way in the innermost call returns.
    Read,
    /// The task that is being executed in the innermost call completes.
    Complete,
}

impl LoopModel {
    /// Nothing was posted yet, and the host has made no call.
    pub open spec fn initial(handler: HandlerModel) -> LoopModel {
        LoopModel { handler, unwritten: 0, unread: 0, calls: Seq::empty() }
    }

    /// Whether `step` can happen now. The host may make a call at any time.
    pub open spec fn allows(self, step: LoopStep) -> bool {
        match step {
            LoopStep::Post(_) => true,
            LoopStep::Write => self.unwritten > 0,
            LoopStep::Call => true,
            LoopStep::Read => self.calls.len() > 0 && self.calls.last() is Clearing,
            LoopStep::Complete => self.calls.len() > 0 && self.calls.last() is Running,
        }
    }

    /// The number of bytes that a read takes out of the socket.
    pub open spec fn readable(self) -> nat {
        if self.unread < NOTIFY_BUFFER_SIZE {
            self.unread
        } else {
            NOTIFY_BUFFER_SIZE as nat
        }
    }

    /// What a read returns: the number of bytes it takes out, or -1 if there are none.
    pub open spec fn read_result(self) -> isize {
        if self.unread == 0 {
            -1isize
        } else {
            self.readable() as isize
        }
    }

    /// The state after the event handler was told of `event` in a call that was made from within
    /// `outer`.
    pub open spec fn handled(self, outer: Seq<CallPhase>, event: FdEvent) -> LoopModel {
        LoopModel {
            handler: self.handler.after_fd_event(event),
            calls: match self.handler.fd_action(event) {
                FdAction::ReadSocket { .. } => outer.push(CallPhase::Clearing),
                FdAction::Execute(_) => outer.push(CallPhase::Running),
                FdAction::Finish => outer,
            },
            ..self
        }
    }

    /// The state after `step`.
    pub open spec fn after(self, step: LoopStep) -> LoopModel {
        match step {
            LoopStep::Post(task) => LoopModel {
                handler: self.handler.posted(task),
                unwritten: match self.handler.post_outcome(task) {
                    Ok(notification) => self.unwritten + notification.size as nat,
                    Err(_) => self.unwritten,
                },
                ..self
            },
            LoopStep::Write => LoopModel {
                unwritten: (self.unwritten - 1) as nat,
                unread: self.unread + 1,
                ..self
            },
            LoopStep::Call => self.handled(self.calls, FdEvent::Ready),
            LoopStep::Read => LoopModel {
                unread: (self.unread - self.readable()) as nat,
                ..self.handled(self.calls.drop_last(), FdEvent::SocketRead(self.read_result()))
            },
            LoopStep::Complete => self.handled(self.calls.drop_last(), FdEvent::TaskExecuted),
        }
    }

    /// The state after all of `steps`.
    pub open spec fn after_all(self, steps: Seq<LoopStep>) -> LoopModel
        decreases steps.len(),
    {
        if steps.len() == 0 {
            self
        } else {
            self.after_all(steps.drop_last()).after(steps.last())
        }
    }

    /// Whether each of `steps` can happen after those before it.
    pub open spec fn allows_all(self, steps: Seq<LoopStep>) -> bool
        decreases steps.len(),
    {
        steps.len() > 0 ==> {
            &&& self.allows_all(steps.drop_last())
            &&& self.after_all(steps.drop_last()).allows(steps.last())
        }
    }

    /// There is a byte on its way for every waiting task.
    pub open spec fn announces_tasks(self) -> bool {
        self.handler.tasks.len() <= self.unwritten + self.unread
    }
}

/// No posted task is forgotten: in whatever order tasks are posted, bytes written and calls made,
/// nested ones too, while no call is being handled there is a byte in the socket, or about to be
/// written to it, for every task that waits, so the host will make another call.
pub proof fn lemma_waiting_tasks_are_announced(handler: HandlerModel, steps: Seq<LoopStep>)
    requires
        handler.tasks.len() == 0,
        LoopModel::initial(handler).allows_all(steps),
    ensures
        LoopModel::initial(handler).after_all(steps).calls.len() == 0 ==> LoopModel::initial(
            handler,
        ).after_all(steps).announces_tasks(),
    decreases steps.len(),
{
    if steps.len() > 0 {
        lemma_waiting_tasks_are_announced(handler, steps.drop_last());
    }
}

/// An event handler knows how many calls to it are being handled, for as many steps as it can
/// count. So while it sees none, there is a byte on its way for every task that waits.
pub proof fn lemma_calls_are_counted(handler: HandlerModel, steps: Seq<LoopStep>)
    requires
        handler.tasks.len() == 0,
        handler.calls == 0,
        steps.len() <= u64::MAX,
        LoopModel::initial(handler).allows_all(steps),
    ensures
        LoopModel::initial(handler).after_all(steps).handler.calls == LoopModel::initial(
            handler,
        ).after_all(steps).calls.len(),
        LoopModel::initial(handler).after_all(steps).calls.len() <= steps.len(),
        LoopModel::initial(handler).after_all(steps).handler.calls == 0 ==> LoopModel::initial(
            handler,
        ).after_all(steps).announces_tasks(),
    decreases steps.len(),
{
    lemma_waiting_tasks_are_announced(handler, steps);
    if steps.len() > 0 {
        lemma_calls_are_counted(handler, steps.drop_last());
    }
}

} // verus!
