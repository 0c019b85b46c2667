use vstd::prelude::*;

use crate::geometry::ViewRect;
use crate::keys::{
    is_virtual_key, lemma_event_holds_what_the_host_said, virtual_key_event, VirtualKeyEvent,
};
use crate::platform::{ParentWindowHandle, Platform, WindowType};
use crate::result::{ok_or_false, TResult};
use crate::run_loop::{FdAction, FdEvent, HandlerModel, Notification, RunLoopEventHandler};

verus! {

/// The bit pattern of the scaling factor 1.0 in single precision.
pub const SCALE_FACTOR_ONE: u32 = 0x3F80_0000;

/// The state of a [`WrapperView`].
pub struct ViewModel<H, F> {
    pub platform: Platform,
    /// The handle of the open editor.
    pub editor_handle: Option<H>,
    /// The frame that the host has put around the view.
    pub plug_frame: Option<F>,
    /// The event handler in the host's run loop that tasks are posted to.
    pub run_loop: Option<HandlerModel>,
    /// Event handlers that have been replaced while the host was calling them. Each stays until
    /// its last call has returned.
    pub retired: Seq<HandlerModel>,
    /// The bit pattern of the DPI scaling factor.
    pub scaling_factor: u32,
    /// The address of the view's own COM object.
    pub com_self: Option<usize>,
    /// The address of the view that the plug-in reaches its host's window through.
    pub plug_view: Option<usize>,
}

impl<H, F> ViewModel<H, F> {
    /// What holds of every view: the scaling factor is left alone on macOS, a run loop is used on
    /// Linux only and comes with a frame, retired event handlers are being called and can be told
    /// apart from each other and from the one in use, and the plug-in reaches the view only while
    /// the editor is open.
    pub open spec fn wf(self) -> bool {
        &&& self.platform == Platform::MacOs ==> self.scaling_factor == SCALE_FACTOR_ONE
        &&& self.run_loop is Some ==> self.platform == Platform::Linux
        &&& self.run_loop is Some ==> self.plug_frame is Some
        &&& self.run_loop matches Some(handler) ==> handler.wf()
        &&& self.retired.len() > 0 ==> self.platform == Platform::Linux
        &&& forall|i: int|
            0 <= i < self.retired.len() ==> (#[trigger] self.retired[i]).wf()
                && self.retired[i].calls > 0
        &&& forall|i: int, j: int|
            0 <= i < j < self.retired.len() ==> (#[trigger] self.retired[i]).event_handler != (
            #[trigger] self.retired[j]).event_handler
        &&& self.run_loop matches Some(handler) ==> forall|i: int|
            0 <= i < self.retired.len() ==> (#[trigger] self.retired[i]).event_handler
                != handler.event_handler
        &&& self.plug_view is Some ==> self.editor_handle is Some
    }

    /// A view that nothing has happened to yet.
    pub open spec fn initial(platform: Platform) -> ViewModel<H, F> {
        ViewModel {
            platform,
            editor_handle: None,
            plug_frame: None,
            run_loop: None,
            retired: Seq::empty(),
            scaling_factor: SCALE_FACTOR_ONE,
            com_self: None,
            plug_view: None,
        }
    }

    /// The answer to whether the view can be put into a window of the type named `type_id`.
    pub open spec fn supports(self, type_id: Seq<u8>) -> TResult {
        ok_or_false(type_id == self.platform.supported_window_type().id())
    }

    /// The parent window to spawn the editor in when the host attaches the view, or the answer
    /// that refuses it.
    pub open spec fn attach_request(self, parent: usize, type_id: Seq<u8>) -> Result<
        ParentWindowHandle,
        TResult,
    > {
        if self.editor_handle is Some {
            Err(TResult::ResultFalse)
        } else {
            match WindowType::named(type_id) {
                Some(window_type) => Ok(window_type.handle(parent)),
                None => Err(TResult::InvalidArgument),
            }
        }
    }

    /// The view with its editor open.
    pub open spec fn opened(self, handle: H) -> ViewModel<H, F> {
        ViewModel { editor_handle: Some(handle), plug_view: self.com_self, ..self }
    }

    /// The view with its editor closed.
    pub open spec fn closed(self) -> ViewModel<H, F> {
        if self.editor_handle is Some {
            ViewModel { editor_handle: None, plug_view: None, ..self }
        } else {
            self
        }
    }

    /// The view in a frame, with an event handler in its host's run loop if it has one. The event
    /// handler that was in use until now is retired if the host is calling it.
    pub open spec fn framed(self, frame: Option<(F, Option<HandlerModel>)>) -> ViewModel<H, F> {
        ViewModel {
            plug_frame: match frame {
                Some(f) => Some(f.0),
                None => None,
            },
            run_loop: match frame {
                Some(f) => f.1,
                None => None,
            },
            retired: match self.run_loop {
                Some(handler) if handler.calls > 0 => self.retired.push(handler),
                _ => self.retired,
            },
            ..self
        }
    }

    /// The event handler that has to be taken down when a frame is set: the one in use until
    /// now, unless the host is calling it.
    pub open spec fn released_by_frame(self) -> Option<HandlerModel> {
        match self.run_loop {
            Some(handler) if handler.calls == 0 => Some(handler),
            _ => None,
        }
    }

    /// The handle of the editor that closes when the host removes the view, or the answer that
    /// refuses it.
    pub open spec fn remove_outcome(self) -> Result<H, TResult> {
        match self.editor_handle {
            Some(handle) => Ok(handle),
            None => Err(TResult::ResultFalse),
        }
    }

    /// The scaling factor to offer to the editor when the host asks for it, or the answer that
    /// refuses it.
    pub open spec fn scale_request(self, factor: u32) -> Result<u32, TResult> {
        if self.platform == Platform::MacOs {
            Err(TResult::ResultFalse)
        } else {
            Ok(factor)
        }
    }

    /// The view after the editor was asked to use a scaling factor.
    pub open spec fn scaled(self, factor: u32, accepted: bool) -> ViewModel<H, F> {
        if accepted {
            ViewModel { scaling_factor: factor, ..self }
        } else {
            self
        }
    }

    /// The factor by which the editor's size is to be scaled for a host that asks for the size of
    /// the view, or the answer that refuses it.
    pub open spec fn size_request(self, has_output: bool) -> Result<u32, TResult> {
        if has_output {
            Ok(self.scaling_factor)
        } else {
            Err(TResult::InvalidArgument)
        }
    }

    /// The rectangle that a host gives the view, and the factor by which the editor's size is to
    /// be scaled to compare it, or the answer that refuses it.
    pub open spec fn resized_request(self, new_size: Option<ViewRect>) -> Result<
        (ViewRect, u32),
        TResult,
    > {
        match new_size {
            Some(rect) => Ok((rect, self.scaling_factor)),
            None => Err(TResult::InvalidArgument),
        }
    }

    /// The frame to send a resize request to, if one can be made at all.
    pub open spec fn resize_frame(self, handle_readable: bool, has_plug_view: bool) -> Option<F> {
        if handle_readable && self.editor_handle is Some && self.com_self is Some && has_plug_view {
            self.plug_frame
        } else {
            None
        }
    }

    /// The answer to a host that gives the view a size, if the editor measures `editor_width` by
    /// `editor_height` pixels.
    pub open spec fn size_answer(
        self,
        rect: ViewRect,
        editor_width: i32,
        editor_height: i32,
    ) -> TResult {
        ok_or_false(rect.spec_width() == editor_width && rect.spec_height() == editor_height)
    }

    /// The answer to a host that asks whether the view could have a size.
    pub open spec fn constraint_answer(self, rect: Option<ViewRect>) -> TResult {
        match rect {
            Some(r) => ok_or_false(r.spec_width() > 0 && r.spec_height() > 0),
            None => TResult::InvalidArgument,
        }
    }

    /// Whether a frame can be put around the view: an event handler for its run loop is within
    /// its capacity and has an address of its own, and there is one on Linux only.
    pub open spec fn fits_frame(self, frame: Option<(F, Option<HandlerModel>)>) -> bool {
        frame matches Some(f) ==> (f.1 matches Some(handler) ==> {
            &&& handler.wf()
            &&& self.platform == Platform::Linux
            &&& self.called(handler.event_handler) is None
        })
    }

    /// What posting `task` to the host's run loop returns.
    pub open spec fn post_outcome(self, task: u64) -> Result<Notification, u64> {
        match self.run_loop {
            Some(handler) => handler.post_outcome(task),
            None => Err(task),
        }
    }

    /// The view after `task` was posted to the host's run loop.
    pub open spec fn posted(self, task: u64) -> ViewModel<H, F> {
        match self.run_loop {
            Some(handler) => ViewModel { run_loop: Some(handler.posted(task)), ..self },
            None => self,
        }
    }

    /// Whether the event handler in use is the one at this address.
    pub open spec fn uses_handler(self, event_handler: usize) -> bool {
        self.run_loop matches Some(handler) && handler.event_handler == event_handler
    }

    /// The event handler at this address, be it in use or retired.
    pub open spec fn called(self, event_handler: usize) -> Option<HandlerModel> {
        if self.uses_handler(event_handler) {
            self.run_loop
        } else {
            match handler_position(self.retired, event_handler) {
                Some(i) => Some(self.retired[i]),
                None => None,
            }
        }
    }

    /// What follows `event` in a call that the host makes to an event handler. It is up to that
    /// handler alone, whether or not it is still in use.
    pub open spec fn fd_action(self, event_handler: usize, event: FdEvent) -> FdAction {
        match self.called(event_handler) {
            Some(handler) => handler.fd_action(event),
            None => FdAction::Finish,
        }
    }

    /// The view after `event` in a call that the host makes to an event handler. A retired
    /// handler leaves when its last call returns.
    pub open spec fn after_fd_event(self, event_handler: usize, event: FdEvent) -> ViewModel<
        H,
        F,
    > {
        if self.uses_handler(event_handler) {
            ViewModel { run_loop: Some(self.run_loop->0.after_fd_event(event)), ..self }
        } else {
            match handler_position(self.retired, event_handler) {
                Some(i) => {
                    let handler = self.retired[i].after_fd_event(event);
                    ViewModel {
                        retired: if handler.calls == 0 {
                            self.retired.remove(i)
                        } else {
                            self.retired.update(i, handler)
                        },
                        ..self
                    }
                },
                None => self,
            }
        }
    }

    /// The event handler that has to be taken down after `event`: a retired one whose last call
    /// returns.
    pub open spec fn released_by_fd_event(self, event_handler: usize, event: FdEvent) -> Option<
        HandlerModel,
    > {
        if self.uses_handler(event_handler) {
            None
        } else {
            match handler_position(self.retired, event_handler) {
                Some(i) if self.retired[i].after_fd_event(event).calls == 0 => Some(
                    self.retired[i].after_fd_event(event),
                ),
                _ => None,
            }
        }
    }
}

/// The position of the first event handler at this address.
pub open spec fn handler_position(handlers: Seq<HandlerModel>, event_handler: usize) -> Option<int>
    decreases handlers.len(),
{
    if handlers.len() == 0 {
        None
    } else if handler_position(handlers.drop_last(), event_handler) is Some {
        handler_position(handlers.drop_last(), event_handler)
    } else if handlers.last().event_handler == event_handler {
        Some(handlers.len() - 1)
    } else {
        None
    }
}

/// What [`handler_position`] finds is at this address, nothing before it is, and it finds
/// something if there is anything.
pub proof fn lemma_handler_position(handlers: Seq<HandlerModel>, event_handler: usize)
    ensures
        match handler_position(handlers, event_handler) {
            Some(i) => {
                &&& 0 <= i < handlers.len()
                &&& handlers[i].event_handler == event_handler
                &&& forall|j: int|
                    0 <= j < i ==> (#[trigger] handlers[j]).event_handler != event_handler
            },
            None => forall|j: int|
                0 <= j < handlers.len() ==> (#[trigger] handlers[j]).event_handler
                    != event_handler,
        },
    decreases handlers.len(),
{
    if handlers.len() > 0 {
        let before = handlers.drop_last();
        lemma_handler_position(before, event_handler);
        assert(forall|j: int| 0 <= j < before.len() ==> before[j] == #[trigger] handlers[j]);
    }
}

/// The model of an event handler that may be missing.
pub open spec fn handler_model(handler: Option<RunLoopEventHandler>) -> Option<HandlerModel> {
    match handler {
        Some(h) => Some(h@),
        None => None,
    }
}

/// The models of several event handlers.
pub open spec fn handler_models(handlers: Seq<RunLoopEventHandler>) -> Seq<HandlerModel> {
    handlers.map_values(|h: RunLoopEventHandler| h@)
}

/// The model of a frame and the event handler that comes with it.
pub open spec fn frame_model<F>(frame: Option<(F, Option<RunLoopEventHandler>)>) -> Option<
    (F, Option<HandlerModel>),
> {
    match frame {
        Some(f) => Some((f.0, handler_model(f.1))),
        None => None,
    }
}

/// A plug-in's view, as its host sees it.
///
/// `H` is the handle that keeps an open editor alive, `F` the frame that the host puts around the
/// view. A method that needs something done outside returns what to do, and another method takes
/// the outcome. Where a method returns a `Result`, an error is the answer for the host, and
/// otherwise the host is answered `ResultOk` unless that other method says differently.
pub struct WrapperView<H, F> {
    platform: Platform,
    editor_handle: Option<H>,
    plug_frame: Option<F>,
    run_loop: Option<RunLoopEventHandler>,
    retired: Vec<RunLoopEventHandler>,
    scaling_factor: u32,
    com_self: Option<usize>,
    plug_view: Option<usize>,
}

impl<H, F> View for WrapperView<H, F> {
    type V = ViewModel<H, F>;

    closed spec fn view(&self) -> ViewModel<H, F> {
        ViewModel {
            platform: self.platform,
            editor_handle: self.editor_handle,
            plug_frame: self.plug_frame,
            run_loop: handler_model(self.run_loop),
            retired: handler_models(self.retired@),
            scaling_factor: self.scaling_factor,
            com_self: self.com_self,
            plug_view: self.plug_view,
        }
    }
}

impl<H, F> WrapperView<H, F> {
    /// A view without an editor, a frame or a run loop, and with a scaling factor of 1.0.
    pub fn new(platform: Platform) -> (view: WrapperView<H, F>)
        ensures
            view@ == ViewModel::<H, F>::initial(platform),
            view@.wf(),
    {
        let view: WrapperView<H, F> = WrapperView {
            platform,
            editor_handle: None,
            plug_frame: None,
            run_loop: None,
            retired: Vec::new(),
            scaling_factor: SCALE_FACTOR_ONE,
            com_self: None,
            plug_view: None,
        };
        assert(view@.retired =~= Seq::empty());
        view
    }

    /// Sets the address of the view's own COM object.
    pub fn set_com_self(&mut self, com_self: Option<usize>)
        ensures
            final(self)@ == (ViewModel { com_self, ..old(self)@ }),
            old(self)@.wf() ==> final(self)@.wf(),
    {
        self.com_self = com_self;
    }

    /// The address of the view that the plug-in reaches its host's window through.
    pub fn plug_view(&self) -> (plug_view: Option<usize>)
        ensures
            plug_view == self@.plug_view,
    {
        self.plug_view
    }

    /// The bit pattern of the DPI scaling factor.
    pub fn scaling_factor(&self) -> (factor: u32)
        ensures
            factor == self@.scaling_factor,
    {
        self.scaling_factor
    }

    /// Whether the view can be put into a window of the type named `type_id`.
    pub fn is_platform_type_supported(&self, type_id: &[u8]) -> (answer: TResult)
        ensures
            answer == self@.supports(type_id@),
    {
        TResult::from_accepted(self.platform.window_type().has_id(type_id))
    }

    /// The host attaches the view to the window at address `parent`, of the type named
    /// `type_id`. The editor is to be spawned in the window that is returned, and its handle
    /// passed to [`WrapperView::editor_spawned`]; or the request is refused with this answer.
    pub fn attached(&self, parent: usize, type_id: &[u8]) -> (request: Result<
        ParentWindowHandle,
        TResult,
    >)
        ensures
            request == self@.attach_request(parent, type_id@),
    {
        if self.editor_handle.is_some() {
            return Err(TResult::ResultFalse);
        }
        match WindowType::from_id(type_id) {
            Some(window_type) => Ok(window_type.parent_handle(parent)),
            None => Err(TResult::InvalidArgument),
        }
    }

    /// The editor has been spawned. The host is answered that the view is attached.
    pub fn editor_spawned(&mut self, handle: H) -> (answer: TResult)
        requires
            old(self)@.editor_handle is None,
        ensures
            answer == TResult::ResultOk,
            final(self)@ == old(self)@.opened(handle),
            final(self)@.editor_handle == Some(handle),
            final(self)@.plug_view == old(self)@.com_self,
            old(self)@.wf() ==> final(self)@.wf(),
    {
        self.editor_handle = Some(handle);
        self.plug_view = self.com_self;
        TResult::ResultOk
    }

    /// The host removes the view from its window. Returns the handle of the editor, which closes
    /// when the handle is dropped, or the answer that refuses the request.
    pub fn removed(&mut self) -> (outcome: Result<H, TResult>)
        ensures
            outcome == old(self)@.remove_outcome(),
            outcome is Ok <==> old(self)@.editor_handle is Some,
            outcome matches Ok(handle) ==> old(self)@.editor_handle == Some(handle),
            outcome matches Err(answer) ==> answer == TResult::ResultFalse,
            final(self)@ == old(self)@.closed(),
            final(self)@.editor_handle is None,
            old(self)@.wf() ==> final(self)@.wf(),
    {
        match self.editor_handle.take() {
            Some(handle) => {
                self.plug_view = None;
                Ok(handle)
            },
            None => Err(TResult::ResultFalse),
        }
    }

    /// Mouse wheel events are left to the window system.
    pub fn on_wheel(&self) -> (answer: TResult)
        ensures
            answer == TResult::NotImplemented,
    {
        TResult::NotImplemented
    }

    /// Focus events are left to the window system.
    pub fn on_focus(&self) -> (answer: TResult)
        ensures
            answer == TResult::NotImplemented,
    {
        TResult::NotImplemented
    }

    /// Hosts cannot resize the view.
    pub fn can_resize(&self) -> (answer: TResult)
        ensures
            answer == TResult::ResultFalse,
    {
        TResult::ResultFalse
    }

    /// Decides on a key event from the host. A virtual key is to be offered to the editor, whose
    /// reply goes to [`WrapperView::virtual_key_handled`]; anything else is refused with the
    /// answer that is returned.
    pub fn dispatch_virtual_key(&self, key_code: i16, is_down: bool, modifiers: i16) -> (request:
        Result<VirtualKeyEvent, TResult>)
        ensures
            is_virtual_key(key_code) ==> request is Ok,
            request matches Ok(event) ==> event.describes(key_code, is_down, modifiers),
            request is Ok <==> 1 <= key_code <= 77,
            request matches Ok(event) ==> {
                &&& event.key_code.vst3_code() == key_code
                &&& event.is_down == is_down
                &&& (event.modifiers.shift <==> modifiers as int % 2 == 1)
                &&& (event.modifiers.alternate <==> modifiers as int / 2 % 2 == 1)
                &&& (event.modifiers.command <==> modifiers as int / 4 % 2 == 1)
                &&& (event.modifiers.control <==> modifiers as int / 8 % 2 == 1)
            },
            !is_virtual_key(key_code) ==> request == Err::<VirtualKeyEvent, TResult>(
                TResult::ResultFalse,
            ),
    {
        match virtual_key_event(key_code, is_down, modifiers) {
            Some(event) => {
                proof {
                    lemma_event_holds_what_the_host_said(event, key_code, is_down, modifiers);
                }
                Ok(event)
            },
            None => Err(TResult::ResultFalse),
        }
    }

    /// The host reports that a key was pressed. See [`WrapperView::dispatch_virtual_key`].
    pub fn on_key_down(&self, key_code: i16, modifiers: i16) -> (request: Result<
        VirtualKeyEvent,
        TResult,
    >)
        ensures
            is_virtual_key(key_code) ==> request is Ok,
            request matches Ok(event) ==> event.describes(key_code, true, modifiers),
            request is Ok <==> 1 <= key_code <= 77,
            request matches Ok(event) ==> {
                &&& event.key_code.vst3_code() == key_code
                &&& event.is_down == true
                &&& (event.modifiers.shift <==> modifiers as int % 2 == 1)
                &&& (event.modifiers.alternate <==> modifiers as int / 2 % 2 == 1)
                &&& (event.modifiers.command <==> modifiers as int / 4 % 2 == 1)
                &&& (event.modifiers.control <==> modifiers as int / 8 % 2 == 1)
            },
            !is_virtual_key(key_code) ==> request == Err::<VirtualKeyEvent, TResult>(
                TResult::ResultFalse,
            ),
    {
        self.dispatch_virtual_key(key_code, true, modifiers)
    }

    /// The host reports that a key was released. See [`WrapperView::dispatch_virtual_key`].
    pub fn on_key_up(&self, key_code: i16, modifiers: i16) -> (request: Result<
        VirtualKeyEvent,
        TResult,
    >)
        ensures
            is_virtual_key(key_code) ==> request is Ok,
            request matches Ok(event) ==> event.describes(key_code, false, modifiers),
            request is Ok <==> 1 <= key_code <= 77,
            request matches Ok(event) ==> {
                &&& event.key_code.vst3_code() == key_code
                &&& event.is_down == false
                &&& (event.modifiers.shift <==> modifiers as int % 2 == 1)
                &&& (event.modifiers.alternate <==> modifiers as int / 2 % 2 == 1)
                &&& (event.modifiers.command <==> modifiers as int / 4 % 2 == 1)
                &&& (event.modifiers.control <==> modifiers as int / 8 % 2 == 1)
            },
            !is_virtual_key(key_code) ==> request == Err::<VirtualKeyEvent, TResult>(
                TResult::ResultFalse,
            ),
    {
        self.dispatch_virtual_key(key_code, false, modifiers)
    }

    /// The answer to a key event that was offered to the editor.
    pub fn virtual_key_handled(&self, handled: bool) -> (answer: TResult)
        ensures
            answer == ok_or_false(handled),
            answer == TResult::ResultOk <==> handled,
    {
        TResult::from_accepted(handled)
    }

    /// The host asks for the size of the view. The editor is to be asked for its size, which has
    /// to be scaled by the factor that is returned and goes to [`WrapperView::size_reported`];
    /// but not if the host has no place to put the result, which is refused with the answer that
    /// is returned.
    pub fn get_size(&self, has_output: bool) -> (request: Result<u32, TResult>)
        ensures
            request == self@.size_request(has_output),
    {
        if has_output {
            Ok(self.scaling_factor)
        } else {
            Err(TResult::InvalidArgument)
        }
    }

    /// The size of the view, given that of the editor in physical pixels, and the answer.
    pub fn size_reported(&self, editor_width: i32, editor_height: i32) -> (report: (
        ViewRect,
        TResult,
    ))
        ensures
            report == (ViewRect::at_origin(editor_width, editor_height), TResult::ResultOk),
    {
        (ViewRect::from_size(editor_width, editor_height), TResult::ResultOk)
    }

    /// The host has given the view a size. The editor is to be asked for its size, which has to
    /// be scaled by the factor that is returned and goes to [`WrapperView::size_compared`]
    /// together with the rectangle; but not if the host has passed no rectangle, which is refused
    /// with the answer that is returned.
    pub fn on_size(&self, new_size: Option<ViewRect>) -> (request: Result<
        (ViewRect, u32),
        TResult,
    >)
        ensures
            request == self@.resized_request(new_size),
    {
        match new_size {
            Some(rect) => Ok((rect, self.scaling_factor)),
            None => Err(TResult::InvalidArgument),
        }
    }

    /// The answer to a host that has given the view a size. It is accepted if it is that of the
    /// editor in physical pixels.
    pub fn size_compared(
        &self,
        new_size: ViewRect,
        editor_width: i32,
        editor_height: i32,
    ) -> (answer: TResult)
        requires
            new_size.is_measurable(),
        ensures
            answer == self@.size_answer(new_size, editor_width, editor_height),
            answer == TResult::ResultOk <==> new_size.right - new_size.left == editor_width
                && new_size.bottom - new_size.top == editor_height,
            answer != TResult::ResultOk ==> answer == TResult::ResultFalse,
    {
        let width: i32 = new_size.width();
        let height: i32 = new_size.height();
        TResult::from_accepted(width == editor_width && height == editor_height)
    }

    /// Whether the view could have this size. Any size that is not empty will do.
    pub fn check_size_constraint(&self, rect: Option<ViewRect>) -> (answer: TResult)
        requires
            rect matches Some(r) ==> {
                &&& i32::MIN <= r.spec_width() <= i32::MAX
                &&& r.spec_width() > 0 ==> i32::MIN <= r.spec_height() <= i32::MAX
            },
        ensures
            answer == self@.constraint_answer(rect),
            rect is None <==> answer == TResult::InvalidArgument,
            rect matches Some(r) ==> (answer == TResult::ResultOk <==> r.right > r.left && r.bottom
                > r.top),
    {
        match rect {
            Some(r) => TResult::from_accepted(r.width() > 0 && r.height() > 0),
            None => TResult::InvalidArgument,
        }
    }

    /// Whether the host's frame is to be asked for a run loop to register an event handler with.
    pub fn uses_run_loop(&self) -> (uses: bool)
        ensures
            uses == (self@.platform == Platform::Linux),
    {
        match self.platform {
            Platform::Linux => true,
            _ => false,
        }
    }

    /// The host sets or clears the frame around the view. A frame comes with an event handler
    /// that was registered with its run loop, if it has one. Returns the answer and the event
    /// handler that was in use until now and has to be taken down. If the host is calling that
    /// one, it goes on with its own tasks first, and [`WrapperView::on_fd_is_set`] returns it
    /// later.
    pub fn set_frame(&mut self, frame: Option<(F, Option<RunLoopEventHandler>)>) -> (outcome: (
        TResult,
        Option<RunLoopEventHandler>,
    ))
        ensures
            outcome.0 == TResult::ResultOk,
            handler_model(outcome.1) == old(self)@.released_by_frame(),
            outcome.1 is Some <==> (old(self)@.run_loop matches Some(handler) && handler.calls
                == 0),
            outcome.1 matches Some(handler) ==> old(self)@.run_loop == Some(handler@),
            frame is None ==> final(self)@.plug_frame is None && final(self)@.run_loop is None,
            frame matches Some(f) ==> final(self)@.plug_frame == Some(f.0),
            frame matches Some(f) ==> match f.1 {
                Some(handler) => final(self)@.run_loop == Some(handler@),
                None => final(self)@.run_loop is None,
            },
            final(self)@ == old(self)@.framed(frame_model(frame)),
            old(self)@.wf() && old(self)@.fits_frame(frame_model(frame)) ==> final(self)@.wf(),
    {
        proof {
            if old(self)@.wf() && old(self)@.fits_frame(frame_model(frame)) {
                lemma_framed_is_wf(old(self)@, frame_model(frame));
            }
        }
        let mut released: Option<RunLoopEventHandler> = None;
        match self.run_loop.take() {
            Some(handler) => {
                if handler.is_in_call() {
                    self.retired.push(handler);
                } else {
                    released = Some(handler);
                }
            },
            None => {},
        }
        match frame {
            Some((plug_frame, run_loop)) => {
                self.run_loop = run_loop;
                self.plug_frame = Some(plug_frame);
            },
            None => {
                self.plug_frame = None;
            },
        }
        assert(self@.retired =~= old(self)@.framed(frame_model(frame)).retired);
        (TResult::ResultOk, released)
    }

    /// The host asks the view to use a scaling factor, given by its bit pattern. Returns the
    /// factor that is to be offered to the editor, whose reply goes to
    /// [`WrapperView::scale_factor_offered`], or the answer that refuses the request. On macOS
    /// scaling is done by the OS, and all window sizes are in logical pixels.
    pub fn set_content_scale_factor(&self, factor: u32) -> (request: Result<u32, TResult>)
        ensures
            request == self@.scale_request(factor),
            request is Err <==> self@.platform == Platform::MacOs,
            request matches Ok(offered) ==> offered == factor,
            request matches Err(answer) ==> answer == TResult::ResultFalse,
    {
        match self.platform {
            Platform::MacOs => Err(TResult::ResultFalse),
            _ => Ok(factor),
        }
    }

    /// A scaling factor was offered to the editor. It is used from now on if the editor has
    /// accepted it.
    pub fn scale_factor_offered(&mut self, factor: u32, accepted: bool) -> (answer: TResult)
        requires
            old(self)@.platform != Platform::MacOs,
        ensures
            answer == ok_or_false(accepted),
            answer == TResult::ResultOk <==> accepted,
            final(self)@ == old(self)@.scaled(factor, accepted),
            accepted ==> final(self)@.scaling_factor == factor,
            !accepted ==> final(self)@ == old(self)@,
            old(self)@.wf() ==> final(self)@.wf(),
    {
        if accepted {
            self.scaling_factor = factor;
        }
        TResult::from_accepted(accepted)
    }

    /// Begins to ask the host to resize the view to the size of its editor. Returns the frame to
    /// send the request to and the factor by which the editor's size is to be scaled for it, or
    /// nothing if no request can be made and the resize fails.
    ///
    /// `handle_readable` is false while the editor is being attached or removed on another
    /// thread. `has_plug_view` tells whether the view's COM object offers the interface to pass
    /// to the host.
    #[must_use]
    pub fn request_resize(&self, handle_readable: bool, has_plug_view: bool) -> (request: Option<
        (&F, u32),
    >)
        ensures
            request == (match self@.resize_frame(handle_readable, has_plug_view) {
                Some(frame) => Some((&frame, self@.scaling_factor)),
                None => None,
            }),
            request is Some <==> handle_readable && has_plug_view && self@.editor_handle is Some
                && self@.com_self is Some && self@.plug_frame is Some,
            request matches Some((frame, factor)) ==> Some(*frame) == self@.plug_frame && factor
                == self@.scaling_factor,
    {
        // Don't do anything if the editor is not open, because that would be strange
        if !handle_readable || self.editor_handle.is_none() {
            return None;
        }
        if self.com_self.is_none() || !has_plug_view {
            return None;
        }
        match self.plug_frame.as_ref() {
            Some(frame) => Some((frame, self.scaling_factor)),
            None => None,
        }
    }

    /// The rectangle to ask the host's frame for: the size of the editor in physical pixels.
    pub fn resize_rect(&self, editor_width: i32, editor_height: i32) -> (rect: ViewRect)
        ensures
            rect == ViewRect::at_origin(editor_width, editor_height),
    {
        ViewRect::from_size(editor_width, editor_height)
    }

    /// Whether a resize has succeeded, given the host's answer to the request.
    pub fn resize_answered(&self, answer: TResult) -> (resized: bool)
        ensures
            resized == (answer == TResult::ResultOk),
    {
        match answer {
            TResult::ResultOk => true,
            _ => false,
        }
    }

    /// If the host supports a run loop, posts the task to the queue of tasks that are run on the
    /// host's UI thread, and tells how to notify the host. If not, or if the queue is full,
    /// returns the task so it can be run elsewhere.
    pub fn do_maybe_in_run_loop(&mut self, task: u64) -> (outcome: Result<Notification, u64>)
        ensures
            outcome == old(self)@.post_outcome(task),
            final(self)@ == old(self)@.posted(task),
            old(self)@.wf() ==> final(self)@.wf(),
    {
        match self.run_loop.as_mut() {
            Some(handler) => handler.post_task(task),
            None => Err(task),
        }
    }

    /// Advances the handling of a call that the host makes to the event handler at the address
    /// `event_handler`. See [`RunLoopEventHandler::on_fd_is_set`]. The call goes on with that
    /// handler's own tasks even if another one has taken its place meanwhile. Returns what to do
    /// next and, when the last call to a handler that was replaced returns, that handler, which
    /// has to be taken down.
    pub fn on_fd_is_set(&mut self, event_handler: usize, event: FdEvent) -> (outcome: (
        FdAction,
        Option<RunLoopEventHandler>,
    ))
        ensures
            outcome.0 == old(self)@.fd_action(event_handler, event),
            handler_model(outcome.1) == old(self)@.released_by_fd_event(event_handler, event),
            outcome.1 matches Some(handler) ==> handler@.calls == 0,
            outcome.1 matches Some(handler) ==> handler@.event_handler == event_handler,
            final(self)@ == old(self)@.after_fd_event(event_handler, event),
            old(self)@.wf() ==> final(self)@.wf(),
    {
        proof {
            lemma_handler_position(old(self)@.retired, event_handler);
            if old(self)@.wf() {
                lemma_after_fd_event_is_wf(old(self)@, event_handler, event);
            }
        }
        match self.run_loop.as_mut() {
            Some(handler) => {
                if handler.event_handler() == event_handler {
                    return (handler.on_fd_is_set(event), None);
                }
            },
            None => {},
        }
        match self.retired_position(event_handler) {
            Some(i) => {
                let action: FdAction = self.retired[i].on_fd_is_set(event);
                if self.retired[i].is_in_call() {
                    assert(self@.retired =~= old(self)@.after_fd_event(
                        event_handler,
                        event,
                    ).retired);
                    (action, None)
                } else {
                    let released: RunLoopEventHandler = self.retired.remove(i);
                    assert(self@.retired =~= old(self)@.after_fd_event(
                        event_handler,
                        event,
                    ).retired);
                    (action, Some(released))
                }
            },
            None => (FdAction::Finish, None),
        }
    }

    /// Looks for a retired event handler by its address.
    fn retired_position(&self, event_handler: usize) -> (position: Option<usize>)
        ensures
            handler_position(self@.retired, event_handler) == (match position {
                Some(i) => Some(i as int),
                None => None,
            }),
            position matches Some(i) ==> i < self.retired@.len(),
    {
        proof {
            lemma_handler_position(self@.retired, event_handler);
        }
        let mut i: usize = 0;
        while i < self.retired.len()
            invariant
                i <= self.retired@.len(),
                self@.retired.len() == self.retired@.len(),
                forall|j: int|
                    0 <= j < i ==> (#[trigger] self@.retired[j]).event_handler != event_handler,
            decreases self.retired@.len() - i,
        {
            if self.retired[i].event_handler() == event_handler {
                proof {
                    lemma_handler_position(self@.retired, event_handler);
                    assert(self@.retired[i as int].event_handler == event_handler);
                }
                return Some(i);
            }
            i += 1;
        }
        None
    }
}

/// A frame that fits keeps the view well-formed.
pub proof fn lemma_framed_is_wf<H, F>(
    view: ViewModel<H, F>,
    frame: Option<(F, Option<HandlerModel>)>,
)
    requires
        view.wf(),
        view.fits_frame(frame),
    ensures
        view.framed(frame).wf(),
{
    if let Some((_, Some(handler))) = frame {
        lemma_handler_position(view.retired, handler.event_handler);
    }
}

/// Handling an event keeps the view well-formed.
pub proof fn lemma_after_fd_event_is_wf<H, F>(
    view: ViewModel<H, F>,
    event_handler: usize,
    event: FdEvent,
)
    requires
        view.wf(),
    ensures
        view.after_fd_event(event_handler, event).wf(),
{
    lemma_handler_position(view.retired, event_handler);
}

} // verus!
