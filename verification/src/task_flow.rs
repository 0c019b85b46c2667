use vstd::multiset::Multiset;
use vstd::prelude::*;

use crate::laws::ViewOp;
use crate::run_loop::{FdAction, HandlerModel};
use crate::view::{handler_position, lemma_handler_position, ViewModel};

verus! {

/// The tasks that wait in an event handler that may be missing.
pub open spec fn tasks_of(handler: Option<HandlerModel>) -> Multiset<u64> {
    match handler {
        Some(h) => h.tasks.to_multiset(),
        None => Multiset::empty(),
    }
}

/// The tasks that wait in several event handlers.
pub open spec fn tasks_of_all(handlers: Seq<HandlerModel>) -> Multiset<u64>
    decreases handlers.len(),
{
    if handlers.len() == 0 {
        Multiset::empty()
    } else {
        tasks_of_all(handlers.drop_last()).add(handlers.last().tasks.to_multiset())
    }
}

impl<H, F> ViewModel<H, F> {
    /// The tasks that wait in the event handlers of the view, in use or retired.
    pub open spec fn waiting(self) -> Multiset<u64> {
        tasks_of(self.run_loop).add(tasks_of_all(self.retired))
    }

    /// The tasks that come in with `op`: one that is posted and accepted, or those that already
    /// wait in the event handler of a new frame.
    pub open spec fn taken_in_by(self, op: ViewOp<H, F>) -> Multiset<u64> {
        match op {
            ViewOp::Post(task) => if self.post_outcome(task) is Ok {
                Multiset::singleton(task)
            } else {
                Multiset::empty()
            },
            ViewOp::SetFrame(Some((_, handler))) => tasks_of(handler),
            _ => Multiset::empty(),
        }
    }

    /// The tasks that `op` gives out to be executed.
    pub open spec fn executed_by(self, op: ViewOp<H, F>) -> Multiset<u64> {
        match op {
            ViewOp::Fd(event_handler, event) => match self.fd_action(event_handler, event) {
                FdAction::Execute(task) => Multiset::singleton(task),
                _ => Multiset::empty(),
            },
            _ => Multiset::empty(),
        }
    }

    /// The tasks that leave with an event handler that `op` returns to be taken down.
    pub open spec fn handed_out_by(self, op: ViewOp<H, F>) -> Multiset<u64> {
        match op {
            ViewOp::SetFrame(_) => tasks_of(self.released_by_frame()),
            ViewOp::Fd(event_handler, event) => tasks_of(
                self.released_by_fd_event(event_handler, event),
            ),
            _ => Multiset::empty(),
        }
    }

    /// The tasks that come in with `ops`.
    pub open spec fn taken_in(self, ops: Seq<ViewOp<H, F>>) -> Multiset<u64>
        decreases ops.len(),
    {
        if ops.len() == 0 {
            Multiset::empty()
        } else {
            self.taken_in(ops.drop_last()).add(
                self.after_ops(ops.drop_last()).taken_in_by(ops.last()),
            )
        }
    }

    /// The tasks that `ops` give out to be executed.
    pub open spec fn executed(self, ops: Seq<ViewOp<H, F>>) -> Multiset<u64>
        decreases ops.len(),
    {
        if ops.len() == 0 {
            Multiset::empty()
        } else {
            self.executed(ops.drop_last()).add(
                self.after_ops(ops.drop_last()).executed_by(ops.last()),
            )
        }
    }

    /// The tasks that leave with the event handlers that `ops` return to be taken down.
    pub open spec fn handed_out(self, ops: Seq<ViewOp<H, F>>) -> Multiset<u64>
        decreases ops.len(),
    {
        if ops.len() == 0 {
            Multiset::empty()
        } else {
            self.handed_out(ops.drop_last()).add(
                self.after_ops(ops.drop_last()).handed_out_by(ops.last()),
            )
        }
    }
}

/// No work gets lost, whatever is done with a view: each task that was waiting or has come in
/// since has been given out to be executed, has left with an event handler that is to be taken
/// down, or still waits in one of the view's event handlers. It is in exactly one of these
/// places, and nothing else is.
pub proof fn lemma_no_work_is_lost<H, F>(view: ViewModel<H, F>, ops: Seq<ViewOp<H, F>>)
    ensures
        view.waiting().add(view.taken_in(ops)) == view.executed(ops).add(
            view.handed_out(ops),
        ).add(view.after_ops(ops).waiting()),
    decreases ops.len(),
{
    if ops.len() > 0 {
        let earlier = ops.drop_last();
        let before = view.after_ops(earlier);
        let op = ops.last();
        lemma_no_work_is_lost(view, earlier);
        lemma_op_loses_no_work(before, op);
        assert forall|task: u64|
            view.waiting().add(view.taken_in(ops)).count(task) == view.executed(ops).add(
                view.handed_out(ops),
            ).add(view.after_ops(ops).waiting()).count(task) by {
            assert(view.waiting().add(view.taken_in(earlier)).count(task) == view.executed(
                earlier,
            ).add(view.handed_out(earlier)).add(before.waiting()).count(task));
            assert(before.waiting().add(before.taken_in_by(op)).count(task) == before.executed_by(
                op,
            ).add(before.handed_out_by(op)).add(before.after_op(op).waiting()).count(task));
        }
    }
    assert(view.waiting().add(view.taken_in(ops)) =~= view.executed(ops).add(
        view.handed_out(ops),
    ).add(view.after_ops(ops).waiting()));
}

/// [`lemma_no_work_is_lost`] for one operation.
proof fn lemma_op_loses_no_work<H, F>(view: ViewModel<H, F>, op: ViewOp<H, F>)
    ensures
        view.waiting().add(view.taken_in_by(op)) == view.executed_by(op).add(
            view.handed_out_by(op),
        ).add(view.after_op(op).waiting()),
{
    broadcast use vstd::seq_lib::group_to_multiset_ensures;

    match op {
        ViewOp::SetFrame(frame) => {
            if let Some(handler) = view.run_loop {
                lemma_tasks_of_push(view.retired, handler);
            }
        },
        ViewOp::Fd(event_handler, event) => {
            lemma_handler_position(view.retired, event_handler);
            if let Some(handler) = view.called(event_handler) {
                if handler.fd_action(event) is Execute {
                    lemma_first_leaves(handler.tasks);
                }
            }
            if !view.uses_handler(event_handler) {
                if let Some(i) = handler_position(view.retired, event_handler) {
                    let advanced = view.retired[i].after_fd_event(event);
                    lemma_tasks_of_update(view.retired, i, advanced);
                    lemma_tasks_of_remove(view.retired, i);
                    assert forall|task: u64|
                        view.waiting().add(view.taken_in_by(op)).count(task)
                            == view.executed_by(op).add(view.handed_out_by(op)).add(
                            view.after_op(op).waiting(),
                        ).count(task) by {
                        assert(tasks_of_all(view.retired.update(i, advanced)).add(
                            view.retired[i].tasks.to_multiset(),
                        ).count(task) == tasks_of_all(view.retired).add(
                            advanced.tasks.to_multiset(),
                        ).count(task));
                    }
                }
            }
        },
        _ => {},
    }
    assert(view.waiting().add(view.taken_in_by(op)) =~= view.executed_by(op).add(
        view.handed_out_by(op),
    ).add(view.after_op(op).waiting()));
}

/// A sequence holds its first element and what is left without it.
proof fn lemma_first_leaves(tasks: Seq<u64>)
    requires
        tasks.len() > 0,
    ensures
        tasks.to_multiset() == Multiset::singleton(tasks[0]).add(tasks.drop_first().to_multiset()),
{
    broadcast use vstd::seq_lib::group_to_multiset_ensures;

    assert(tasks.drop_first() =~= tasks.remove(0));
    assert(tasks.contains(tasks[0]));
    assert(tasks.to_multiset() =~= Multiset::singleton(tasks[0]).add(
        tasks.drop_first().to_multiset(),
    ));
}

/// Another event handler adds its tasks.
proof fn lemma_tasks_of_push(handlers: Seq<HandlerModel>, handler: HandlerModel)
    ensures
        tasks_of_all(handlers.push(handler)) == tasks_of_all(handlers).add(
            handler.tasks.to_multiset(),
        ),
{
    assert(handlers.push(handler).drop_last() =~= handlers);
}

/// Replacing an event handler exchanges its tasks.
proof fn lemma_tasks_of_update(handlers: Seq<HandlerModel>, i: int, handler: HandlerModel)
    requires
        0 <= i < handlers.len(),
    ensures
        tasks_of_all(handlers.update(i, handler)).add(handlers[i].tasks.to_multiset())
            == tasks_of_all(handlers).add(handler.tasks.to_multiset()),
    decreases handlers.len(),
{
    let before = handlers.drop_last();
    if i < handlers.len() - 1 {
        lemma_tasks_of_update(before, i, handler);
        assert(handlers.update(i, handler).drop_last() =~= before.update(i, handler));
        assert forall|task: u64|
            tasks_of_all(handlers.update(i, handler)).add(
                handlers[i].tasks.to_multiset(),
            ).count(task) == tasks_of_all(handlers).add(handler.tasks.to_multiset()).count(
                task,
            ) by {
            assert(tasks_of_all(before.update(i, handler)).add(
                before[i].tasks.to_multiset(),
            ).count(task) == tasks_of_all(before).add(handler.tasks.to_multiset()).count(task));
        }
    } else {
        assert(handlers.update(i, handler).drop_last() =~= before);
    }
    assert(tasks_of_all(handlers.update(i, handler)).add(handlers[i].tasks.to_multiset())
        =~= tasks_of_all(handlers).add(handler.tasks.to_multiset()));
}

/// An event handler that is removed takes its tasks along.
proof fn lemma_tasks_of_remove(handlers: Seq<HandlerModel>, i: int)
    requires
        0 <= i < handlers.len(),
    ensures
        tasks_of_all(handlers.remove(i)).add(handlers[i].tasks.to_multiset()) == tasks_of_all(
            handlers,
        ),
    decreases handlers.len(),
{
    let before = handlers.drop_last();
    if i < handlers.len() - 1 {
        lemma_tasks_of_remove(before, i);
        assert(handlers.remove(i).drop_last() =~= before.remove(i));
    } else {
        assert(handlers.remove(i) =~= before);
    }
    assert(tasks_of_all(handlers.remove(i)).add(handlers[i].tasks.to_multiset())
        =~= tasks_of_all(handlers));
}

} // verus!
