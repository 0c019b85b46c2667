use vstd::prelude::*;

use crate::geometry::ViewRect;
use crate::platform::{lemma_window_type_ids_distinct, ParentWindowHandle, Platform};
use crate::result::{ok_or_false, TResult};
use crate::run_loop::{
    call_events, task_actions, task_events, FdAction, FdEvent, HandlerModel, Notification,
};
use crate::view::{
    handler_position, lemma_after_fd_event_is_wf, lemma_framed_is_wf, lemma_handler_position,
    ViewModel,
};

verus! {

/// What changes a view.
pub enum ViewOp<H, F> {
    SetComSelf(Option<usize>),
    EditorSpawned(H),
    Removed,
    SetFrame(Option<(F, Option<HandlerModel>)>),
    ScaleFactorOffered(u32, bool),
    Post(u64),
    Fd(usize, FdEvent),
}

impl<H, F> ViewModel<H, F> {
    /// Whether `op` can be carried out: an editor is spawned only when none is open, event
    /// handlers fit the platform, and scaling factors are not offered on macOS.
    pub open spec fn allows(self, op: ViewOp<H, F>) -> bool {
        match op {
            ViewOp::EditorSpawned(_) => self.editor_handle is None,
            ViewOp::SetFrame(frame) => self.fits_frame(frame),
            ViewOp::ScaleFactorOffered(_, _) => self.platform != Platform::MacOs,
            _ => true,
        }
    }

    /// The view after `op`.
    pub open spec fn after_op(self, op: ViewOp<H, F>) -> ViewModel<H, F> {
        match op {
            ViewOp::SetComSelf(com_self) => ViewModel { com_self, ..self },
            ViewOp::EditorSpawned(handle) => self.opened(handle),
            ViewOp::Removed => self.closed(),
            ViewOp::SetFrame(frame) => self.framed(frame),
            ViewOp::ScaleFactorOffered(factor, accepted) => self.scaled(factor, accepted),
            ViewOp::Post(task) => self.posted(task),
            ViewOp::Fd(event_handler, event) => self.after_fd_event(event_handler, event),
        }
    }

    /// The view after all of `ops`.
    pub open spec fn after_ops(self, ops: Seq<ViewOp<H, F>>) -> ViewModel<H, F>
        decreases ops.len(),
    {
        if ops.len() == 0 {
            self
        } else {
            self.after_ops(ops.drop_last()).after_op(ops.last())
        }
    }

    /// Whether each of `ops` can be carried out after those before it.
    pub open spec fn allows_all(self, ops: Seq<ViewOp<H, F>>) -> bool
        decreases ops.len(),
    {
        ops.len() > 0 ==> {
            &&& self.allows_all(ops.drop_last())
            &&& self.after_ops(ops.drop_last()).allows(ops.last())
        }
    }

    /// What is done in response to `events` in a call to an event handler, in order.
    pub open spec fn fd_actions(self, event_handler: usize, events: Seq<FdEvent>) -> Seq<FdAction>
        decreases events.len(),
    {
        if events.len() == 0 {
            Seq::empty()
        } else {
            seq![self.fd_action(event_handler, events[0])] + self.after_fd_event(
                event_handler,
                events[0],
            ).fd_actions(event_handler, events.drop_first())
        }
    }

    /// Whether an event handler is in the view, in use or retired, in exactly this state.
    pub open spec fn holds(self, handler: HandlerModel) -> bool {
        self.run_loop == Some(handler) || self.retired.contains(handler)
    }
}

/// Whatever is done with a new view, it stays well-formed on the platform it was made for. On
/// macOS its scaling factor stays 1.0; elsewhere than on Linux it never uses a run loop; the
/// plug-in reaches it only while its editor is open.
pub proof fn lemma_every_view_is_well_formed<H, F>(platform: Platform, ops: Seq<ViewOp<H, F>>)
    requires
        ViewModel::<H, F>::initial(platform).allows_all(ops),
    ensures
        ViewModel::<H, F>::initial(platform).after_ops(ops).wf(),
        ViewModel::<H, F>::initial(platform).after_ops(ops).platform == platform,
        platform == Platform::MacOs ==> ViewModel::<H, F>::initial(platform).after_ops(
            ops,
        ).scaling_factor == 0x3F80_0000,
        ViewModel::<H, F>::initial(platform).after_ops(ops).plug_view is Some
            ==> ViewModel::<H, F>::initial(platform).after_ops(ops).editor_handle is Some,
        ViewModel::<H, F>::initial(platform).after_ops(ops).run_loop is Some ==> ViewModel::<
            H,
            F,
        >::initial(platform).after_ops(ops).plug_frame is Some,
        platform != Platform::Linux ==> ViewModel::<H, F>::initial(platform).after_ops(
            ops,
        ).run_loop is None && ViewModel::<H, F>::initial(platform).after_ops(ops).retired.len()
            == 0,
    decreases ops.len(),
{
    if ops.len() > 0 {
        lemma_every_view_is_well_formed(platform, ops.drop_last());
        let before = ViewModel::<H, F>::initial(platform).after_ops(ops.drop_last());
        match ops.last() {
            ViewOp::SetFrame(frame) => lemma_framed_is_wf(before, frame),
            ViewOp::Fd(event_handler, event) => lemma_after_fd_event_is_wf(
                before,
                event_handler,
                event,
            ),
            _ => {},
        }
    }
}

/// A view that is not attached yet can be attached to any window of the type that it reports as
/// supported, and the editor then gets a handle of that type.
pub proof fn lemma_supported_window_can_be_attached<H, F>(
    view: ViewModel<H, F>,
    parent: usize,
    type_id: Seq<u8>,
)
    requires
        view.editor_handle is None,
        view.supports(type_id) == TResult::ResultOk,
    ensures
        view.attach_request(parent, type_id) == Ok::<ParentWindowHandle, TResult>(
            view.platform.supported_window_type().handle(parent),
        ),
{
    let window_type = view.platform.supported_window_type();
    lemma_window_type_ids_distinct(window_type, window_type);
}

/// Removing a view undoes attaching it. In between, another attempt to attach it is refused;
/// afterwards, so is another attempt to remove it, and neither changes anything.
pub proof fn lemma_remove_undoes_attach<H, F>(
    view: ViewModel<H, F>,
    handle: H,
    parent: usize,
    type_id: Seq<u8>,
)
    requires
        view.wf(),
        view.editor_handle is None,
    ensures
        view.opened(handle).closed() == view,
        view.opened(handle).attach_request(parent, type_id) == Err::<ParentWindowHandle, TResult>(
            TResult::ResultFalse,
        ),
        view.closed() == view,
{
}

/// The host is asked to resize the view only while its editor is open and its frame is set: not
/// after the view was removed, nor after the frame was cleared.
pub proof fn lemma_resize_needs_editor_and_frame<H, F>(
    view: ViewModel<H, F>,
    handle_readable: bool,
    has_plug_view: bool,
)
    ensures
        view.resize_frame(handle_readable, has_plug_view) is Some ==> view.editor_handle is Some
            && view.plug_frame is Some && view.com_self is Some,
        view.closed().resize_frame(handle_readable, has_plug_view) is None,
        view.framed(None).resize_frame(handle_readable, has_plug_view) is None,
{
}

/// The view accepts what it reports: a host that gives it the reported size, at any position, is
/// answered that all is well, and any other size is refused. A size that is reported also meets
/// the view's constraint, unless it is empty.
pub proof fn lemma_reported_size_is_accepted<H, F>(
    view: ViewModel<H, F>,
    rect: ViewRect,
    editor_width: i32,
    editor_height: i32,
)
    ensures
        view.size_answer(
            ViewRect::at_origin(editor_width, editor_height),
            editor_width,
            editor_height,
        ) == TResult::ResultOk,
        view.size_answer(rect, editor_width, editor_height) == ok_or_false(
            rect.right == rect.left + editor_width && rect.bottom == rect.top + editor_height,
        ),
        view.constraint_answer(Some(ViewRect::at_origin(editor_width, editor_height)))
            == ok_or_false(editor_width > 0 && editor_height > 0),
{
}

/// A scaling factor that the editor has accepted stays the one to scale its sizes by, whatever
/// else is done with the view, until it accepts another one. Every size that is reported to the
/// host, or compared with one from it, goes by that factor.
pub proof fn lemma_accepted_factor_scales_sizes<H, F>(
    view: ViewModel<H, F>,
    factor: u32,
    ops: Seq<ViewOp<H, F>>,
    rect: ViewRect,
)
    requires
        forall|i: int|
            0 <= i < ops.len() ==> !(#[trigger] ops[i] matches ViewOp::ScaleFactorOffered(
                _,
                accepted,
            ) && accepted),
    ensures
        view.scaled(factor, true).after_ops(ops).scaling_factor == factor,
        view.scaled(factor, true).after_ops(ops).size_request(true) == Ok::<u32, TResult>(factor),
        view.scaled(factor, true).after_ops(ops).resized_request(Some(rect)) == Ok::<
            (ViewRect, u32),
            TResult,
        >((rect, factor)),
    decreases ops.len(),
{
    if ops.len() > 0 {
        lemma_accepted_factor_scales_sizes(view, factor, ops.drop_last(), rect);
        assert(ops.last() == ops[ops.len() - 1]);
    }
}

/// A view finds each of its event handlers by its address, in use or retired.
pub proof fn lemma_handler_is_found<H, F>(view: ViewModel<H, F>, handler: HandlerModel)
    requires
        view.wf(),
    ensures
        view.holds(handler) <==> view.called(handler.event_handler) == Some(handler),
        view.holds(handler) && !view.uses_handler(handler.event_handler) ==> {
            &&& handler_position(view.retired, handler.event_handler) matches Some(i)
            &&& 0 <= i < view.retired.len()
            &&& view.retired[i] == handler
        },
{
    lemma_handler_position(view.retired, handler.event_handler);
}

/// The host may set any frame while it calls an event handler: the call is not disturbed. What
/// follows in it is up to the same handler with the same tasks as before.
pub proof fn lemma_frame_leaves_calls_alone<H, F>(
    view: ViewModel<H, F>,
    frame: Option<(F, Option<HandlerModel>)>,
    handler: HandlerModel,
    event: FdEvent,
)
    requires
        view.wf(),
        view.fits_frame(frame),
        view.holds(handler),
        handler.calls > 0,
    ensures
        view.framed(frame).holds(handler),
        view.framed(frame).fd_action(handler.event_handler, event) == handler.fd_action(event),
{
    let after = view.framed(frame);
    lemma_framed_is_wf(view, frame);
    lemma_handler_is_found(view, handler);
    if view.uses_handler(handler.event_handler) {
        assert(after.retired[after.retired.len() - 1] == handler);
    } else {
        let i = handler_position(view.retired, handler.event_handler)->0;
        assert(after.retired[i] == handler);
    }
    lemma_handler_is_found(after, handler);
}

/// A call that the host makes to any event handler of the view, in use or retired, goes by that
/// handler alone: after a call was made or a read has found bytes, its socket is read; after any
/// other event its oldest task is executed, or the call returns if it has none.
pub proof fn lemma_call_goes_by_its_handler<H, F>(
    view: ViewModel<H, F>,
    handler: HandlerModel,
    event: FdEvent,
)
    requires
        view.wf(),
        view.run_loop == Some(handler) || view.retired.contains(handler),
    ensures
        view.fd_action(handler.event_handler, event) == handler.fd_action(event),
        event == FdEvent::Ready ==> view.fd_action(handler.event_handler, event) == (
        FdAction::ReadSocket { fd: handler.socket_read_fd, size: 128 }),
        event matches FdEvent::SocketRead(count) && count > 0 ==> view.fd_action(
            handler.event_handler,
            event,
        ) == (FdAction::ReadSocket { fd: handler.socket_read_fd, size: 128 }),
        event matches FdEvent::SocketRead(count) && count <= 0 && handler.tasks.len() > 0
            ==> view.fd_action(handler.event_handler, event) == FdAction::Execute(
            handler.tasks[0],
        ),
        event == FdEvent::TaskExecuted && handler.tasks.len() > 0 ==> view.fd_action(
            handler.event_handler,
            event,
        ) == FdAction::Execute(handler.tasks[0]),
        event matches FdEvent::SocketRead(count) && count <= 0 && handler.tasks.len() == 0
            ==> view.fd_action(handler.event_handler, event) == FdAction::Finish,
        event == FdEvent::TaskExecuted && handler.tasks.len() == 0 ==> view.fd_action(
            handler.event_handler,
            event,
        ) == FdAction::Finish,
{
    lemma_handler_is_found(view, handler);
}

/// A call executes the tasks of the event handler that the host has called, all of them and in
/// the order in which they were posted, whether or not that handler is still the one in use.
pub proof fn lemma_call_runs_its_own_tasks<H, F>(
    view: ViewModel<H, F>,
    handler: HandlerModel,
    event: FdEvent,
)
    requires
        view.wf(),
        view.holds(handler),
        handler.calls > 0,
        !HandlerModel::reads_after(event),
    ensures
        view.fd_actions(handler.event_handler, task_events(event, handler.tasks.len()))
            == task_actions(handler.tasks),
    decreases handler.tasks.len(),
{
    let events = task_events(event, handler.tasks.len());
    let after = view.after_fd_event(handler.event_handler, event);
    let rest = handler.after_fd_event(event);
    assert(events[0] == event);
    lemma_handler_is_found(view, handler);
    if handler.tasks.len() == 0 {
        assert(events.drop_first() =~= Seq::empty());
        assert(after.fd_actions(handler.event_handler, events.drop_first()) =~= Seq::empty());
        assert(view.fd_actions(handler.event_handler, events) =~= task_actions(handler.tasks));
    } else {
        lemma_after_fd_event_is_wf(view, handler.event_handler, event);
        lemma_no_handler_is_lost_in_calls(view, handler, handler.event_handler, event);
        lemma_call_runs_its_own_tasks(after, rest, FdEvent::TaskExecuted);
        assert(events.drop_first() =~= task_events(FdEvent::TaskExecuted, rest.tasks.len()));
        assert(view.fd_actions(handler.event_handler, events) =~= task_actions(handler.tasks));
    }
}

/// A whole call to any event handler of the view: while reads find bytes in `reads`, the handler's
/// socket is read again; once a read finds none, each of its tasks is executed, the oldest first;
/// then the call returns.
pub proof fn lemma_whole_call<H, F>(
    view: ViewModel<H, F>,
    handler: HandlerModel,
    reads: Seq<isize>,
    last: isize,
)
    requires
        view.wf(),
        view.run_loop == Some(handler) || view.retired.contains(handler),
        forall|i: int| 0 <= i < reads.len() ==> reads[i] > 0,
        last <= 0,
    ensures
        ({
            let actions = view.fd_actions(
                handler.event_handler,
                call_events(reads, last, handler.tasks.len()),
            );
            &&& actions.len() == reads.len() + 1 + handler.tasks.len() + 1
            &&& forall|i: int|
                0 <= i <= reads.len() ==> #[trigger] actions[i] == (FdAction::ReadSocket {
                    fd: handler.socket_read_fd,
                    size: 128,
                })
            &&& forall|i: int|
                0 <= i < handler.tasks.len() ==> #[trigger] actions[reads.len() + 1 + i]
                    == FdAction::Execute(handler.tasks[i])
            &&& actions.last() == FdAction::Finish
        }),
{
    let address = handler.event_handler;
    let called = handler.after_fd_event(FdEvent::Ready);
    let after = view.after_fd_event(address, FdEvent::Ready);
    let tail = task_events(FdEvent::SocketRead(last), handler.tasks.len());
    let head = reads.map_values(|count: isize| FdEvent::SocketRead(count));
    let events = call_events(reads, last, handler.tasks.len());
    lemma_handler_is_found(view, handler);
    lemma_after_fd_event_is_wf(view, address, FdEvent::Ready);
    lemma_no_handler_is_lost_in_calls(view, handler, address, FdEvent::Ready);
    lemma_reads_of_call(after, called, reads, tail);
    lemma_call_runs_its_own_tasks(after, called, FdEvent::SocketRead(last));
    assert(events[0] == FdEvent::Ready);
    assert(events.drop_first() =~= head + tail);
    let read = FdAction::ReadSocket { fd: handler.socket_read_fd, size: 128 };
    assert(view.fd_actions(address, events) =~= seq![read] + (Seq::new(
        reads.len(),
        |i: int| read,
    ) + task_actions(handler.tasks)));
}

/// Reads that find bytes lead to another read each and leave the view as it is.
proof fn lemma_reads_of_call<H, F>(
    view: ViewModel<H, F>,
    handler: HandlerModel,
    reads: Seq<isize>,
    tail: Seq<FdEvent>,
)
    requires
        view.wf(),
        view.holds(handler),
        handler.calls > 0,
        forall|i: int| 0 <= i < reads.len() ==> reads[i] > 0,
    ensures
        view.fd_actions(
            handler.event_handler,
            reads.map_values(|count: isize| FdEvent::SocketRead(count)) + tail,
        ) == Seq::new(
            reads.len(),
            |i: int| FdAction::ReadSocket { fd: handler.socket_read_fd, size: 128 },
        ) + view.fd_actions(handler.event_handler, tail),
    decreases reads.len(),
{
    let address = handler.event_handler;
    let head = reads.map_values(|count: isize| FdEvent::SocketRead(count));
    let read = FdAction::ReadSocket { fd: handler.socket_read_fd, size: 128 };
    if reads.len() == 0 {
        assert(head + tail =~= tail);
        assert(Seq::new(reads.len(), |i: int| read) + view.fd_actions(address, tail)
            =~= view.fd_actions(address, tail));
    } else {
        let rest = reads.drop_first();
        let event = FdEvent::SocketRead(reads[0]);
        lemma_handler_is_found(view, handler);
        assert(view.after_fd_event(address, event) == view) by {
            assert(handler.after_fd_event(event) == handler);
            if !view.uses_handler(address) {
                let i = handler_position(view.retired, address)->0;
                assert(view.retired.update(i, handler) =~= view.retired);
            }
        }
        lemma_reads_of_call(view, handler, rest, tail);
        assert((head + tail)[0] == event);
        assert((head + tail).drop_first() =~= rest.map_values(
            |count: isize| FdEvent::SocketRead(count),
        ) + tail);
        assert(view.fd_actions(address, head + tail) =~= Seq::new(reads.len(), |i: int| read)
            + view.fd_actions(address, tail));
    }
}

/// No event handler gets lost when a frame is set, and so no task does: each one stays in the
/// view as it was, or is returned to be taken down. That happens only when no call to it is in
/// progress.
pub proof fn lemma_no_handler_is_lost_with_frame<H, F>(
    view: ViewModel<H, F>,
    frame: Option<(F, Option<HandlerModel>)>,
    handler: HandlerModel,
)
    requires
        view.wf(),
        view.fits_frame(frame),
        view.holds(handler),
    ensures
        view.framed(frame).holds(handler) || view.released_by_frame() == Some(handler),
        view.released_by_frame() matches Some(released) ==> released.calls == 0,
{
    if handler.calls > 0 {
        lemma_frame_leaves_calls_alone(view, frame, handler, FdEvent::Ready);
    } else {
        lemma_handler_is_found(view, handler);
    }
}

/// No event handler gets lost in a call that the host makes, and so no task does: the one that is
/// called advances, and stays in the view or is returned to be taken down; every other one stays
/// as it was. One is returned only when no call to it is in progress.
pub proof fn lemma_no_handler_is_lost_in_calls<H, F>(
    view: ViewModel<H, F>,
    handler: HandlerModel,
    event_handler: usize,
    event: FdEvent,
)
    requires
        view.wf(),
        view.holds(handler),
    ensures
        handler.event_handler != event_handler ==> view.after_fd_event(
            event_handler,
            event,
        ).holds(handler),
        handler.event_handler == event_handler ==> {
            ||| view.after_fd_event(event_handler, event).holds(handler.after_fd_event(event))
            ||| view.released_by_fd_event(event_handler, event) == Some(
                handler.after_fd_event(event),
            ) && handler.after_fd_event(event).calls == 0
        },
        view.released_by_fd_event(event_handler, event) matches Some(released) ==> released.calls
            == 0 && released.event_handler == event_handler,
{
    let after = view.after_fd_event(event_handler, event);
    lemma_handler_is_found(view, handler);
    lemma_handler_position(view.retired, event_handler);
    if !view.uses_handler(handler.event_handler) {
        let i = handler_position(view.retired, handler.event_handler)->0;
        match handler_position(view.retired, event_handler) {
            Some(j) if !view.uses_handler(event_handler) && after.retired.len()
                < view.retired.len() => {
                if i < j {
                    assert(after.retired[i] == handler);
                } else if i > j {
                    assert(after.retired[i - 1] == handler);
                }
            },
            Some(j) if !view.uses_handler(event_handler) && i == j => {
                assert(after.retired[i] == handler.after_fd_event(event));
            },
            _ => {
                assert(after.retired[i] == handler);
            },
        }
    }
}

/// Where there is no run loop, a task that is posted comes back unchanged and so does the view.
/// That is always so before the host has set a frame, after it has cleared it, and on any
/// platform but Linux.
pub proof fn lemma_without_run_loop_tasks_come_back<H, F>(view: ViewModel<H, F>, task: u64)
    requires
        view.wf(),
    ensures
        view.run_loop is None ==> view.post_outcome(task) == Err::<Notification, u64>(task),
        view.run_loop is None ==> view.posted(task) == view,
        view.platform != Platform::Linux ==> view.run_loop is None,
        view.plug_frame is None ==> view.run_loop is None,
        view.framed(None).run_loop is None,
{
}

/// A task that could not be posted comes back unchanged, and the view stays as it was.
pub proof fn lemma_refused_task_comes_back<H, F>(view: ViewModel<H, F>, task: u64)
    requires
        view.post_outcome(task) is Err,
    ensures
        view.post_outcome(task) == Err::<Notification, u64>(task),
        view.posted(task) == view,
{
}

} // verus!
