use vstd::prelude::*;

use crate::geometry::ViewRect;
use crate::platform::{lemma_names, lemma_window_type_ids, ParentWindowHandle, Platform};
use crate::result::TResult;
use crate::run_loop::{
    lemma_fd_effect, FdAction, FdEvent, HandlerModel, Notification, RunLoopEventHandler,
};
use crate::view::{
    frame_model, handler_model, handler_models, lemma_handler_position, ViewModel,
};

verus! {

/// A new view has no editor, no frame, no event handler and no COM object, and a scaling factor
/// of 1.0, whose bit pattern is `0x3F80_0000`.
pub proof fn lemma_new_view<H, F>(platform: Platform)
    ensures
        ViewModel::<H, F>::initial(platform).platform == platform,
        ViewModel::<H, F>::initial(platform).editor_handle is None,
        ViewModel::<H, F>::initial(platform).plug_frame is None,
        ViewModel::<H, F>::initial(platform).run_loop is None,
        ViewModel::<H, F>::initial(platform).retired.len() == 0,
        ViewModel::<H, F>::initial(platform).scaling_factor == 0x3F80_0000,
        ViewModel::<H, F>::initial(platform).com_self is None,
        ViewModel::<H, F>::initial(platform).plug_view is None,
{
}

/// A view reports a window type as supported if and only if it is named by the bytes of
/// `X11EmbedWindowID` on Unix, of `NSView` on macOS, or of `HWND` on Windows.
pub proof fn lemma_supported_types<H, F>(view: ViewModel<H, F>, type_id: Seq<u8>)
    ensures
        view.supports(type_id) == TResult::ResultOk <==> {
            ||| (view.platform == Platform::Linux || view.platform == Platform::OtherUnix)
                && type_id == seq![
                0x58u8, 0x31, 0x31, 0x45, 0x6D, 0x62, 0x65, 0x64,
                0x57, 0x69, 0x6E, 0x64, 0x6F, 0x77, 0x49, 0x44,
            ]
            ||| view.platform == Platform::MacOs && type_id == seq![
                0x4Eu8, 0x53, 0x56, 0x69, 0x65, 0x77,
            ]
            ||| view.platform == Platform::Windows && type_id == seq![0x48u8, 0x57, 0x4E, 0x44]
        },
        view.supports(type_id) != TResult::ResultOk ==> view.supports(type_id)
            == TResult::ResultFalse,
{
    lemma_window_type_ids();
}

/// A view without an editor can be attached to any window whose type has a name, on every
/// platform. The editor gets the address that the host has passed: all of it as an `NSView` or a
/// `HWND`, its low 32 bits as an X11 window.
pub proof fn lemma_attach_hands_over_the_window<H, F>(
    view: ViewModel<H, F>,
    parent: usize,
    type_id: Seq<u8>,
)
    requires
        view.editor_handle is None,
    ensures
        type_id == seq![0x48u8, 0x57, 0x4E, 0x44] ==> view.attach_request(parent, type_id) == Ok::<
            ParentWindowHandle,
            TResult,
        >(ParentWindowHandle::Win32Hwnd(parent)),
        type_id == seq![0x4Eu8, 0x53, 0x56, 0x69, 0x65, 0x77] ==> view.attach_request(
            parent,
            type_id,
        ) == Ok::<ParentWindowHandle, TResult>(ParentWindowHandle::AppKitNsView(parent)),
        type_id == seq![
            0x58u8, 0x31, 0x31, 0x45, 0x6D, 0x62, 0x65, 0x64,
            0x57, 0x69, 0x6E, 0x64, 0x6F, 0x77, 0x49, 0x44,
        ] ==> (view.attach_request(parent, type_id) matches Ok(
            ParentWindowHandle::X11Window(window),
        ) && window as int == parent as int % 0x1_0000_0000),
        type_id != seq![0x48u8, 0x57, 0x4E, 0x44] && type_id != seq![
            0x4Eu8, 0x53, 0x56, 0x69, 0x65, 0x77,
        ] && type_id != seq![
            0x58u8, 0x31, 0x31, 0x45, 0x6D, 0x62, 0x65, 0x64,
            0x57, 0x69, 0x6E, 0x64, 0x6F, 0x77, 0x49, 0x44,
        ] ==> view.attach_request(parent, type_id) == Err::<ParentWindowHandle, TResult>(
            TResult::InvalidArgument,
        ),
{
    lemma_names(type_id);
}

/// A view with an editor cannot be attached again, whatever the window.
pub proof fn lemma_attached_view_refuses<H, F>(
    view: ViewModel<H, F>,
    parent: usize,
    type_id: Seq<u8>,
)
    requires
        view.editor_handle is Some,
    ensures
        view.attach_request(parent, type_id) == Err::<ParentWindowHandle, TResult>(
            TResult::ResultFalse,
        ),
{
}

/// Opening the editor keeps its handle and publishes the view's COM object to the plug-in.
/// Nothing else changes.
pub proof fn lemma_open_effect<H, F>(view: ViewModel<H, F>, handle: H)
    ensures
        view.opened(handle).editor_handle == Some(handle),
        view.opened(handle).plug_view == view.com_self,
        view.opened(handle).platform == view.platform,
        view.opened(handle).plug_frame == view.plug_frame,
        view.opened(handle).run_loop == view.run_loop,
        view.opened(handle).retired == view.retired,
        view.opened(handle).scaling_factor == view.scaling_factor,
        view.opened(handle).com_self == view.com_self,
{
}

/// Closing the editor drops its handle and takes the view back from the plug-in. Without an
/// editor it does nothing. Nothing else changes.
pub proof fn lemma_close_effect<H, F>(view: ViewModel<H, F>)
    ensures
        view.closed().editor_handle is None,
        view.editor_handle is Some ==> view.closed().plug_view is None,
        view.editor_handle is None ==> view.closed().plug_view == view.plug_view,
        view.closed().platform == view.platform,
        view.closed().plug_frame == view.plug_frame,
        view.closed().run_loop == view.run_loop,
        view.closed().retired == view.retired,
        view.closed().scaling_factor == view.scaling_factor,
        view.closed().com_self == view.com_self,
{
}

/// Setting a frame keeps it and its event handler, and clearing it keeps neither. The event
/// handler in use until now is retired while it is being called and otherwise handed out.
/// Nothing else changes.
pub proof fn lemma_frame_effect<H, F>(
    view: ViewModel<H, F>,
    frame: F,
    handler: Option<HandlerModel>,
)
    ensures
        view.framed(Some((frame, handler))).plug_frame == Some(frame),
        view.framed(Some((frame, handler))).run_loop == handler,
        view.framed(None).plug_frame is None,
        view.framed(None).run_loop is None,
        view.run_loop matches Some(replaced) ==> (replaced.calls > 0 ==> {
            &&& view.framed(Some((frame, handler))).retired == view.retired.push(replaced)
            &&& view.framed(None).retired == view.retired.push(replaced)
            &&& view.released_by_frame() is None
        }),
        view.run_loop matches Some(replaced) ==> (replaced.calls == 0 ==> {
            &&& view.framed(Some((frame, handler))).retired == view.retired
            &&& view.framed(None).retired == view.retired
            &&& view.released_by_frame() == Some(replaced)
        }),
        view.run_loop is None ==> {
            &&& view.framed(Some((frame, handler))).retired == view.retired
            &&& view.framed(None).retired == view.retired
            &&& view.released_by_frame() is None
        },
        forall|f: Option<(F, Option<HandlerModel>)>|
            {
                &&& (#[trigger] view.framed(f)).platform == view.platform
                &&& view.framed(f).editor_handle == view.editor_handle
                &&& view.framed(f).scaling_factor == view.scaling_factor
                &&& view.framed(f).com_self == view.com_self
                &&& view.framed(f).plug_view == view.plug_view
            },
{
}

/// The models of event handlers and frames leave nothing out.
pub proof fn lemma_models<F>(
    handler: RunLoopEventHandler,
    handlers: Seq<RunLoopEventHandler>,
    frame: F,
)
    ensures
        handler_model(Some(handler)) == Some(handler@),
        handler_model(None) is None,
        handler_models(handlers).len() == handlers.len(),
        forall|i: int|
            0 <= i < handlers.len() ==> #[trigger] handler_models(handlers)[i] == handlers[i]@,
        frame_model::<F>(None) is None,
        frame_model(Some((frame, Some(handler)))) == Some((frame, Some(handler@))),
        frame_model(Some((frame, None::<RunLoopEventHandler>))) == Some(
            (frame, None::<HandlerModel>),
        ),
{
}

/// A scaling factor that was accepted is used from then on, one that was not changes nothing, and
/// nothing else changes either way.
pub proof fn lemma_scale_effect<H, F>(view: ViewModel<H, F>, factor: u32, accepted: bool)
    ensures
        accepted ==> view.scaled(factor, accepted).scaling_factor == factor,
        !accepted ==> view.scaled(factor, accepted).scaling_factor == view.scaling_factor,
        view.scaled(factor, accepted).platform == view.platform,
        view.scaled(factor, accepted).editor_handle == view.editor_handle,
        view.scaled(factor, accepted).plug_frame == view.plug_frame,
        view.scaled(factor, accepted).run_loop == view.run_loop,
        view.scaled(factor, accepted).retired == view.retired,
        view.scaled(factor, accepted).com_self == view.com_self,
        view.scaled(factor, accepted).plug_view == view.plug_view,
{
}

/// Removing a view gives back the handle that it was opened with, whatever else the view holds,
/// and is refused if and only if there is none.
pub proof fn lemma_remove_gives_back_the_handle<H, F>(view: ViewModel<H, F>, handle: H)
    ensures
        view.opened(handle).remove_outcome() == Ok::<H, TResult>(handle),
        view.remove_outcome() == Ok::<H, TResult>(handle) <==> view.editor_handle == Some(handle),
        view.closed().remove_outcome() == Err::<H, TResult>(TResult::ResultFalse),
        view.remove_outcome() is Err ==> view.remove_outcome() == Err::<H, TResult>(
            TResult::ResultFalse,
        ),
{
}

/// Every scaling factor is offered to the editor as the host has passed it, except on macOS,
/// where every one is refused.
pub proof fn lemma_scale_requests<H, F>(view: ViewModel<H, F>, factor: u32)
    ensures
        view.platform != Platform::MacOs ==> view.scale_request(factor) == Ok::<u32, TResult>(
            factor,
        ),
        view.platform == Platform::MacOs ==> view.scale_request(factor) == Err::<u32, TResult>(
            TResult::ResultFalse,
        ),
{
}

/// Sizes are asked for exactly when the host has passed a rectangle, and then scaled by the
/// factor of the view.
pub proof fn lemma_size_requests<H, F>(view: ViewModel<H, F>, rect: ViewRect)
    ensures
        view.size_request(true) == Ok::<u32, TResult>(view.scaling_factor),
        view.size_request(false) == Err::<u32, TResult>(TResult::InvalidArgument),
        view.resized_request(Some(rect)) == Ok::<(ViewRect, u32), TResult>(
            (rect, view.scaling_factor),
        ),
        view.resized_request(None) == Err::<(ViewRect, u32), TResult>(TResult::InvalidArgument),
{
}

/// A size is accepted if and only if it is that of the editor, and possible if and only if it is
/// not empty, wherever the rectangle is and whatever state the view is in.
pub proof fn lemma_size_answers<H, F>(
    view: ViewModel<H, F>,
    rect: ViewRect,
    editor_width: i32,
    editor_height: i32,
)
    ensures
        rect.left + editor_width == rect.right && rect.top + editor_height == rect.bottom
            ==> view.size_answer(rect, editor_width, editor_height) == TResult::ResultOk,
        rect.left + editor_width != rect.right || rect.top + editor_height != rect.bottom
            ==> view.size_answer(rect, editor_width, editor_height) == TResult::ResultFalse,
        rect.left < rect.right && rect.top < rect.bottom ==> view.constraint_answer(Some(rect))
            == TResult::ResultOk,
        rect.left >= rect.right || rect.top >= rect.bottom ==> view.constraint_answer(Some(rect))
            == TResult::ResultFalse,
        view.constraint_answer(None) == TResult::InvalidArgument,
{
}

/// The host's frame is asked to resize the view if and only if the editor is open and not being
/// opened or closed elsewhere, the view's COM object is known and offers the interface, and a
/// frame is set. It does not matter whether there is a run loop.
pub proof fn lemma_resize_is_requested<H, F>(
    view: ViewModel<H, F>,
    handle_readable: bool,
    has_plug_view: bool,
    frame: F,
)
    ensures
        view.resize_frame(handle_readable, has_plug_view) == Some(frame) <==> {
            &&& handle_readable
            &&& has_plug_view
            &&& view.editor_handle is Some
            &&& view.com_self is Some
            &&& view.plug_frame == Some(frame)
        },
{
}

/// Once an open view has been put into a frame, with or without a run loop, that frame is the one
/// to ask for a resize.
pub proof fn lemma_open_view_in_frame_resizes<H, F>(
    view: ViewModel<H, F>,
    handle: H,
    frame: F,
    handler: Option<HandlerModel>,
)
    requires
        view.com_self is Some,
    ensures
        view.opened(handle).framed(Some((frame, handler))).resize_frame(true, true) == Some(frame),
        view.framed(Some((frame, handler))).opened(handle).resize_frame(true, true) == Some(frame),
{
}

/// A task is put behind those that wait in the event handler in use, and the host is notified by
/// one byte of value 1 in that handler's socket. Without a handler, or with a full one, the task
/// comes back and nothing changes.
pub proof fn lemma_post_goes_to_the_run_loop<H, F>(view: ViewModel<H, F>, task: u64)
    ensures
        view.run_loop matches Some(handler) ==> (handler.tasks.len() < handler.capacity ==> {
            &&& view.post_outcome(task) matches Ok(notification) && notification.fd
                == handler.socket_write_fd && notification.value == 1 && notification.size == 1
            &&& view.posted(task).run_loop matches Some(after) && {
                &&& after.tasks == handler.tasks.push(task)
                &&& after.socket_read_fd == handler.socket_read_fd
                &&& after.socket_write_fd == handler.socket_write_fd
                &&& after.capacity == handler.capacity
                &&& after.event_handler == handler.event_handler
                &&& after.calls == handler.calls
            }
        }),
        view.run_loop matches Some(handler) && handler.tasks.len() >= handler.capacity ==> {
            &&& view.post_outcome(task) == Err::<Notification, u64>(task)
            &&& view.posted(task).run_loop == view.run_loop
        },
        view.run_loop is None ==> {
            &&& view.post_outcome(task) == Err::<Notification, u64>(task)
            &&& view.posted(task).run_loop is None
        },
        view.posted(task).platform == view.platform,
        view.posted(task).editor_handle == view.editor_handle,
        view.posted(task).plug_frame == view.plug_frame,
        view.posted(task).retired == view.retired,
        view.posted(task).scaling_factor == view.scaling_factor,
        view.posted(task).com_self == view.com_self,
        view.posted(task).plug_view == view.plug_view,
{
}

/// An event in a call to the event handler in use advances that handler and changes nothing else.
/// It is not handed out.
pub proof fn lemma_fd_event_of_handler_in_use<H, F>(
    view: ViewModel<H, F>,
    handler: HandlerModel,
    event: FdEvent,
)
    requires
        view.run_loop == Some(handler),
    ensures
        view.fd_action(handler.event_handler, event) == handler.fd_action(event),
        view.after_fd_event(handler.event_handler, event).run_loop == Some(
            handler.after_fd_event(event),
        ),
        view.after_fd_event(handler.event_handler, event).retired == view.retired,
        view.released_by_fd_event(handler.event_handler, event) is None,
{
}

/// An event in a call to a retired event handler, the first at its address, advances that handler
/// and no other. When no call to it is left, it leaves the view and is handed out.
pub proof fn lemma_fd_event_of_retired_handler<H, F>(
    view: ViewModel<H, F>,
    event_handler: usize,
    i: int,
    event: FdEvent,
)
    requires
        view.run_loop matches Some(handler) ==> handler.event_handler != event_handler,
        0 <= i < view.retired.len(),
        view.retired[i].event_handler == event_handler,
        forall|j: int| 0 <= j < i ==> (#[trigger] view.retired[j]).event_handler != event_handler,
    ensures
        view.fd_action(event_handler, event) == view.retired[i].fd_action(event),
        view.after_fd_event(event_handler, event).run_loop == view.run_loop,
        view.retired[i].after_fd_event(event).calls > 0 ==> {
            let retired = view.after_fd_event(event_handler, event).retired;
            &&& view.released_by_fd_event(event_handler, event) is None
            &&& retired.len() == view.retired.len()
            &&& retired[i] == view.retired[i].after_fd_event(event)
            &&& forall|j: int|
                0 <= j < retired.len() && j != i ==> #[trigger] retired[j] == view.retired[j]
        },
        view.retired[i].after_fd_event(event).calls == 0 ==> {
            let retired = view.after_fd_event(event_handler, event).retired;
            &&& view.released_by_fd_event(event_handler, event) == Some(
                view.retired[i].after_fd_event(event),
            )
            &&& retired.len() == view.retired.len() - 1
            &&& forall|j: int| 0 <= j < i ==> #[trigger] retired[j] == view.retired[j]
            &&& forall|j: int|
                i <= j < retired.len() ==> #[trigger] retired[j] == view.retired[j + 1]
        },
{
    lemma_handler_position(view.retired, event_handler);
}

/// A call to an address where the view has no event handler returns at once and changes nothing.
pub proof fn lemma_fd_event_of_unknown_handler<H, F>(
    view: ViewModel<H, F>,
    event_handler: usize,
    event: FdEvent,
)
    requires
        view.run_loop matches Some(handler) ==> handler.event_handler != event_handler,
        forall|j: int|
            0 <= j < view.retired.len() ==> (#[trigger] view.retired[j]).event_handler
                != event_handler,
    ensures
        view.fd_action(event_handler, event) == FdAction::Finish,
        view.after_fd_event(event_handler, event) == view,
        view.released_by_fd_event(event_handler, event) is None,
{
    lemma_handler_position(view.retired, event_handler);
}

/// An event in a call concerns the event handlers of the view only.
pub proof fn lemma_fd_event_leaves_the_rest<H, F>(
    view: ViewModel<H, F>,
    event_handler: usize,
    event: FdEvent,
)
    ensures
        view.after_fd_event(event_handler, event).platform == view.platform,
        view.after_fd_event(event_handler, event).editor_handle == view.editor_handle,
        view.after_fd_event(event_handler, event).plug_frame == view.plug_frame,
        view.after_fd_event(event_handler, event).scaling_factor == view.scaling_factor,
        view.after_fd_event(event_handler, event).com_self == view.com_self,
        view.after_fd_event(event_handler, event).plug_view == view.plug_view,
{
}

/// A task that the view gives out to be executed is the oldest one of the event handler in use,
/// and is gone from its queue.
pub proof fn lemma_executed_task_leaves_the_queue<H, F>(
    view: ViewModel<H, F>,
    handler: HandlerModel,
    event: FdEvent,
)
    requires
        view.run_loop == Some(handler),
        view.fd_action(handler.event_handler, event) is Execute,
    ensures
        view.fd_action(handler.event_handler, event) matches FdAction::Execute(task)
            && view.after_fd_event(handler.event_handler, event).run_loop matches Some(after)
            && seq![task] + after.tasks == handler.tasks,
{
    lemma_fd_effect(handler, event);
}

} // verus!
